pub mod compose;
pub mod dockerfile;
pub mod dockerignore;
pub mod laws;

pub use compose::{
    BuildConfig, ComposeFile, DependsOn, DependsOnCondition, Deploy, EnvFile, Environment,
    HealthCheck, Resources, ResourceSpec, RestartPolicy, Service,
};
pub use dockerfile::{DockerfileParser, Instruction, InstructionView};
pub use dockerignore::parse_patterns;
