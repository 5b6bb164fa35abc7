pub mod ed25519;
