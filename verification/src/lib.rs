//! A decoder for the binary format of compiled class files.
//!
//! [`classfile_from_bytes`] turns a buffer into a [`Classfile`]. The decoders
//! of the parts of a class file are public too; each reads from a
//! [`ClassParser`], the cursor over the buffer.

pub mod annotation;
pub mod attribute;
pub mod attribute_decoder;
pub mod classfile;
pub mod constant_pool;
pub mod cursor;
pub mod error;
pub mod flags;
pub mod laws;
pub mod options;
pub mod outcome;
pub mod records;
pub mod repeat;
pub mod stack_map;
pub mod text;
pub mod truncation;

pub use annotation::Annotation;
pub use annotation::ElementValue;
pub use annotation::ElementValuePair;
pub use annotation::LocalVar;
pub use annotation::TargetInfo;
pub use annotation::TypeAnnotation;
pub use annotation::TypePath;
pub use annotation::TypePathSegment;
pub use attribute::Attribute;
pub use attribute::AttributeInfo;
pub use attribute::AttributeKind;
pub use attribute::RecordComponent;
pub use classfile::classfile_from_bytes;
pub use classfile::classfile_from_bytes_with;
pub use classfile::Classfile;
pub use classfile::Field;
pub use classfile::Method;
pub use classfile::Version;
pub use constant_pool::ConstantPoolEntry;
pub use cursor::ClassParser;
pub use error::ConstantKind;
pub use error::DecodeError;
pub use flags::AccessFlags;
pub use flags::FieldAccessFlags;
pub use flags::ModuleExportsFlags;
pub use flags::ModuleFlags;
pub use flags::ModuleOpensFlags;
pub use flags::ModuleRequiresFlags;
pub use options::DecodeOptions;
pub use options::Depth;
pub use records::BootstrapMethod;
pub use records::ExceptionTableEntry;
pub use records::InnerClass;
pub use records::LineNumber;
pub use records::LocalVariable;
pub use records::LocalVariableType;
pub use records::MethodParameter;
pub use records::ModuleExports;
pub use records::ModuleOpens;
pub use records::ModuleProvides;
pub use records::ModuleRequires;
pub use stack_map::StackMapFrame;
pub use stack_map::VerificationTypeInfo;
pub use text::CowExt;
