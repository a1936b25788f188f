//! Verified core of a Rust/Qt interop bridge: the generator that turns
//! inherited methods into boundary declarations, and the value types that
//! cross the boundary.
pub mod bytes;
pub mod inherit;
pub mod qbytearray;
pub mod qbytearrayview;
pub mod qhash;
pub mod qlatin1stringview;
pub mod qt5list;
pub mod quuid;

pub use qbytearray::QByteArray;
pub use qbytearrayview::QByteArrayView;
pub use qhash::{Iter, QHash, QHashPair};
pub use qlatin1stringview::QLatin1StringView;
pub use qt5list::Qt5List;
pub use quuid::{QUuid, QUuidVariant, QUuidVersion};
