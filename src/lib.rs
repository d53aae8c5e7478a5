//! LIONESS: a wide-block cipher built from a keyed stream cipher and a keyed
//! MAC by a four-round unbalanced Feistel network.

pub mod xor;
pub mod primitives;
pub mod lioness;
pub mod block;

pub use block::BlockLioness;
pub use lioness::{InvalidBlockLength, Lioness};
pub use primitives::{Blake3, ChaCha20, MacPrimitive, StreamPrimitive};
pub use xor::{xor, xor_in_place};
