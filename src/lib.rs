//! Publishing guest programs of a workspace: choosing the packages to build, the
//! options handed to the guest builder, and the files that publish each built binary
//! together with its image identifiers.

pub mod digest;
pub mod error;
pub mod layout;
pub mod options;
pub mod package;
pub mod publish;
