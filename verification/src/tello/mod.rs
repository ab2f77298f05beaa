pub mod crc;
pub mod packet;
pub mod video;
pub mod drone;
pub mod video_packet;
