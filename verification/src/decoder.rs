//! The decoded instruction formats and the decoder, under one path.
pub use crate::instructions::btype::Btype;
pub use crate::instructions::cbtype::CBtype;
pub use crate::instructions::citype::CItype;
pub use crate::instructions::ciwtype::CIWtype;
pub use crate::instructions::cjtype::CJtype;
pub use crate::instructions::cltype::CLtype;
pub use crate::instructions::crtype::CRtype;
pub use crate::instructions::csstype::CSStype;
pub use crate::instructions::cstype::CStype;
pub use crate::instructions::decoder::{DecodedInstruction, InstructionDecoder};
pub use crate::instructions::itype::Itype;
pub use crate::instructions::jtype::Jtype;
pub use crate::instructions::rtype::Rtype;
pub use crate::instructions::stype::Stype;
pub use crate::instructions::utype::Utype;
