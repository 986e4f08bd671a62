#![allow(non_snake_case)]
#![allow(non_camel_case_types)]
#![allow(non_upper_case_globals)]
#![allow(dead_code)]

pub mod board;
pub mod boot;
pub mod bytes;
pub mod cl;
pub mod device;
pub mod drm;
pub mod gem;
pub mod gpu_file;
pub mod packet;
pub mod regs;
pub mod render;
pub mod validate;
