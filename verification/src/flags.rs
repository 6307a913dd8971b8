//! The bits of the access-flag fields.

use vstd::prelude::*;

verus! {

/// The bits of a class's `access_flags`.
pub struct AccessFlags;

impl AccessFlags {
    pub const PUBLIC: u16 = 0x0001;

    pub const FINAL: u16 = 0x0010;

    pub const SUPER: u16 = 0x0020;

    pub const INTERFACE: u16 = 0x0200;

    pub const ABSTRACT: u16 = 0x0400;

    pub const SYNTHETIC: u16 = 0x1000;

    pub const ANNOTATION: u16 = 0x2000;

    pub const ENUM: u16 = 0x4000;

    pub const MODULE: u16 = 0x8000;
}

/// The bits of a field's `access_flags`.
pub struct FieldAccessFlags;

impl FieldAccessFlags {
    pub const PUBLIC: u16 = 0x0001;

    pub const PRIVATE: u16 = 0x0002;

    pub const PROTECTED: u16 = 0x0004;

    pub const STATIC: u16 = 0x0008;

    pub const FINAL: u16 = 0x0010;

    pub const VOLATILE: u16 = 0x0040;

    pub const TRANSIENT: u16 = 0x0080;

    pub const SYNTHETIC: u16 = 0x1000;

    pub const ENUM: u16 = 0x4000;
}

/// The bits of a module export's `exports_flags`.
pub struct ModuleExportsFlags;

impl ModuleExportsFlags {
    pub const SYNTHETIC: u16 = 0x1000;

    pub const MANDATED: u16 = 0x8000;
}

/// The bits of a module's `module_flags`.
pub struct ModuleFlags;

impl ModuleFlags {
    pub const OPEN: u16 = 0x0020;

    pub const SYNTHETIC: u16 = 0x1000;

    pub const MANDATED: u16 = 0x8000;
}

/// The bits of a module opening's `opens_flags`.
pub struct ModuleOpensFlags;

impl ModuleOpensFlags {
    pub const SYNTHETIC: u16 = 0x1000;

    pub const MANDATED: u16 = 0x8000;
}

/// The bits of a module requirement's `requires_flags`.
pub struct ModuleRequiresFlags;

impl ModuleRequiresFlags {
    pub const TRANSITIVE: u16 = 0x0020;

    pub const STATIC_PHASE: u16 = 0x0040;

    pub const SYNTHETIC: u16 = 0x1000;

    pub const MANDATED: u16 = 0x8000;
}

} // verus!
