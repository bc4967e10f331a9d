pub mod modbus;
pub mod text;
pub mod timefmt;
pub mod messages;
pub mod routes;
pub mod smartgrid;
pub mod storage;
pub mod relay_tool;
