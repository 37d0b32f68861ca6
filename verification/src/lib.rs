//! Inspecting a JSON Web Token and checking candidate decoding keys against
//! its signature as they are typed.
//!
//! A token is taken apart into its three segments and the algorithm that its
//! header declares. The header and the claims are shown as indented JSON.
//! The text of a third pane is resolved into a decoding key after every key
//! typed into it, and the token's signature is verified against that key.

pub mod algorithm;
pub mod chang;
pub mod claims;
pub mod codec;
pub mod editor;
pub mod header;
pub mod key;
pub mod signature;
pub mod text;
pub mod token;
pub mod validator;

pub use algorithm::AlgorithmFamily;
pub use chang::{Chang, Command, FocusArea, Outcome};
pub use claims::Claims;
pub use codec::{decode_segment, DecodeError};
pub use header::Header;
pub use key::resolve;
pub use signature::Signature;
pub use token::{Token, TokenError};
pub use validator::{on_key_buffer_changed, ValidationResult};
