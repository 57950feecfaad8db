use vstd::prelude::*;

pub mod analyzer;
pub mod bridge;
pub mod capabilities;
pub mod catalog;
pub mod configs;
pub mod contracts;
pub mod decisions;
pub mod engine;
pub mod evidence;
pub mod games;
pub mod machine;
pub mod perflab;
pub mod platform;
pub mod processes;
pub mod profiles;
pub mod recommendations;
pub mod rollback;
pub mod storage;
pub mod telemetry;
pub mod text;
