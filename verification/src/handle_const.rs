use vstd::prelude::*;

verus! {

/// A network protocol, as the client API numbers them.
pub type Protocol = u32;

/// TCP/IP, the only protocol that the client API supports.
pub const PROTOCOL_DEFAULT: Protocol = 0;

/// A compression level, as the client API numbers them.
pub type Compression = u32;

/// No compression.
pub const CompNone: Compression = 0;

/// Maximum compression speed, potentially minimum compression ratio.
pub const CompFast: Compression = 1;

/// Maximum compression ratio, potentially minimum compression speed.
pub const CompBest: Compression = 2;

/// An encryption mode, as the client API numbers them.
pub type Encryption = u32;

/// No encryption.
pub const EncryptNone: Encryption = 0;

/// AES in Galois/counter mode with 256-bit keys.
pub const EncryptAES: Encryption = 1;

} // verus!
