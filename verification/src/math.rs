pub mod division;
pub mod lp_price;
pub mod mul_div;
pub mod safe_arithmetics;
pub mod u256;
