pub mod capdu;
pub mod protocol;
pub mod rapdu;
pub mod tlv;
pub mod utils;
