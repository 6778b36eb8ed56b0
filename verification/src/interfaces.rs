pub mod whirlpool_position;
