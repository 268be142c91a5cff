//! Build-time memory-map generation for i.MX RT microcontrollers.
//!
//! The i.MX RT chips carry a reconfigurable on-chip RAM (FlexRAM) whose
//! banks are assigned at boot to OCRAM, DTCM, or ITCM roles, plus an
//! external flash bus (FlexSPI). This library computes and validates a
//! memory placement for a firmware image and renders the linker-script
//! fragment that a downstream linker and the target startup code consume.
//!
//! The entry point is [`RuntimeBuilder`]: pick a [`Family`], choose how the
//! image boots (from a FlexSPI flash window, from a flash partition, or
//! entirely from RAM), assign sections to [`Memory`] regions, then render
//! the artifact with [`RuntimeBuilder::write_linker_script`].

pub mod config;
pub mod emit;
pub mod env_override;
pub mod family;
pub mod flexram;
pub mod text;

pub use config::BuildError;
pub use config::ConfigError;
pub use config::FlashOpts;
pub use config::RuntimeBuilder;
pub use config::Section;
pub use env_override::EnvOverride;
pub use family::Family;
pub use family::FlexSpi;
pub use family::Memory;
pub use flexram::BankRole;
pub use flexram::FlexRamBanks;
