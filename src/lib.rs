//! Battery status of a pair of wireless earbuds and their charging case:
//! the vendor's binary battery report, the address match that finds the
//! earbuds among an adapter's known devices, and the bounded retry policy
//! around opening the channel to them.
pub mod decode;
pub mod device;
pub mod transport;
