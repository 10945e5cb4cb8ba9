pub mod cartridge;
pub mod laws;
pub mod mapper;
pub mod mapper_000;
pub mod mapper_001;
pub mod mapper_002;
pub mod mapper_003;
