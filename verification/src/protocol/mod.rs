pub mod bedrock;
pub mod game;
pub mod raknet;
