//! The verified core of a bridge that exposes the Steam Input controller
//! subsystem to a host runtime. The native SDK deals in opaque 64-bit
//! handles, numeric device-type codes, and single-precision analog
//! readings; the host deals in wide integers and a closed device-type
//! enumeration. Everything between the two — wrapping and unwrapping
//! handles, classifying device-type codes, packing analog readings,
//! marshalling enumeration results — is verified here, on plain values.
//! The embedding makes the native calls themselves and hands their raw
//! results to these functions.

pub mod handles;
pub mod input_types;
pub mod origins;
