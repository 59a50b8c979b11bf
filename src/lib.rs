//! Project management for the Por do Sol toolchain: locating the project root,
//! resolving the compiler, interpreter and standard library, deciding when a
//! rebuild is due, and scaffolding new projects from templates.
//!
//! Everything here is a pure function of explicit inputs: the environment and
//! the filesystem are handed in as snapshots (`Ambiente`, `Disco`), so each
//! decision can be stated and proved exactly.

pub mod texto;
pub mod caminho;
pub mod ambiente;
pub mod toolchain;
pub mod fontes;
pub mod construcao;
pub mod novo;
pub mod projeto;
