//! The outer envelope of a class file: magic, version, constant pool, the
//! class's own indices, and its fields, methods and attributes.

use crate::attribute::{Attribute, AttributeView};
use crate::attribute_decoder::{attributes_from_bytes, spec_attributes};
use crate::constant_pool::{
    constant_pool_from_bytes, spec_constant_pool, ConstantPoolEntry, ConstantPoolEntryView,
};
use crate::cursor::{spec_u4, ClassParser};
use crate::error::{DecodeError, DecodeErrorView};
use crate::options::DecodeOptions;
use crate::outcome::{plain, viewed, viewed_list, views, Decoded};
use crate::repeat::{
    lemma_repeat_done, lemma_repeat_start, lemma_repeat_step, lemma_views_push, prepend,
    spec_counted, spec_repeat, spec_u2_list, spec_u2_run, u2_list_from_bytes,
};
use crate::truncation::lemma_classfile_ends_within_buffer;
use vstd::prelude::*;

verus! {

/// The four bytes that every class file starts with: `CA FE BA BE`.
pub const MAGIC: u32 = 0xCAFE_BABE;

#[derive(Clone, Copy, Debug, PartialEq, Eq, Structural)]
pub struct Version {
    pub minor: u16,
    pub major: u16,
}

#[derive(Debug, PartialEq, Eq)]
pub struct Field<'a> {
    pub access_flags: u16,
    pub name_index: u16,
    pub descriptor_index: u16,
    pub attributes: Vec<Attribute<'a>>,
}

#[derive(Debug, PartialEq, Eq)]
pub struct Method<'a> {
    pub access_flags: u16,
    pub name_index: u16,
    pub descriptor_index: u16,
    pub attributes: Vec<Attribute<'a>>,
}

#[derive(Debug, PartialEq, Eq)]
pub struct Classfile<'a> {
    pub version: Version,
    pub constant_pool: Vec<ConstantPoolEntry<'a>>,
    pub access_flags: u16,
    pub this_class: u16,
    pub super_class: u16,
    pub interfaces: Vec<u16>,
    pub fields: Vec<Field<'a>>,
    pub methods: Vec<Method<'a>>,
    pub attributes: Vec<Attribute<'a>>,
}

/// The mathematical value of a [`Field`].
pub ghost struct FieldView {
    pub access_flags: u16,
    pub name_index: u16,
    pub descriptor_index: u16,
    pub attributes: Seq<AttributeView>,
}

/// The mathematical value of a [`Method`].
pub ghost struct MethodView {
    pub access_flags: u16,
    pub name_index: u16,
    pub descriptor_index: u16,
    pub attributes: Seq<AttributeView>,
}

/// The mathematical value of a [`Classfile`].
pub ghost struct ClassfileView {
    pub version: Version,
    pub constant_pool: Seq<ConstantPoolEntryView>,
    pub access_flags: u16,
    pub this_class: u16,
    pub super_class: u16,
    pub interfaces: Seq<u16>,
    pub fields: Seq<FieldView>,
    pub methods: Seq<MethodView>,
    pub attributes: Seq<AttributeView>,
}

impl<'a> View for Field<'a> {
    type V = FieldView;

    open spec fn view(&self) -> FieldView {
        FieldView {
            access_flags: self.access_flags,
            name_index: self.name_index,
            descriptor_index: self.descriptor_index,
            attributes: views(self.attributes@),
        }
    }
}

impl<'a> View for Method<'a> {
    type V = MethodView;

    open spec fn view(&self) -> MethodView {
        MethodView {
            access_flags: self.access_flags,
            name_index: self.name_index,
            descriptor_index: self.descriptor_index,
            attributes: views(self.attributes@),
        }
    }
}

impl<'a> View for Classfile<'a> {
    type V = ClassfileView;

    open spec fn view(&self) -> ClassfileView {
        ClassfileView {
            version: self.version,
            constant_pool: views(self.constant_pool@),
            access_flags: self.access_flags,
            this_class: self.this_class,
            super_class: self.super_class,
            interfaces: self.interfaces@,
            fields: views(self.fields@),
            methods: views(self.methods@),
            attributes: views(self.attributes@),
        }
    }
}

/// The version at `pos`: the minor number, then the major.
pub open spec fn spec_classfile_version(bytes: Seq<u8>, pos: int) -> Decoded<Version> {
    match spec_u2_run(bytes, pos, 2) {
        Err(e) => Err(e),
        Ok((numbers, end)) => Ok((Version { minor: numbers[0], major: numbers[1] }, end)),
    }
}

/// Reads the version of a class file. No version is refused.
pub fn classfile_version_from_bytes(parser: &mut ClassParser<'_>) -> (r: Result<
    Version,
    DecodeError,
>)
    ensures
        final(parser)@.bytes == old(parser)@.bytes,
        final(parser)@.position >= old(parser)@.position,
        plain(r, final(parser)@.position) == spec_classfile_version(
            old(parser)@.bytes,
            old(parser)@.position,
        ),
{
    proof {
        reveal_with_fuel(spec_repeat, 3);
    }
    let minor: u16 = parser.u2()?;
    let major: u16 = parser.u2()?;
    Ok(Version { minor, major })
}

/// The decoder of one field, as a function of the position.
pub open spec fn field_at(
    bytes: Seq<u8>,
    pool: Seq<ConstantPoolEntryView>,
    options: DecodeOptions,
) -> spec_fn(int) -> Decoded<FieldView> {
    |pos: int| spec_field(bytes, pos, pool, options)
}

/// A field at `pos`: its access flags, the indices of its name and
/// descriptor, and its attributes.
pub open spec fn spec_field(
    bytes: Seq<u8>,
    pos: int,
    pool: Seq<ConstantPoolEntryView>,
    options: DecodeOptions,
) -> Decoded<FieldView> {
    match spec_u2_run(bytes, pos, 3) {
        Err(e) => Err(e),
        Ok((head, at_attributes)) => match spec_attributes(
            bytes,
            at_attributes,
            pool,
            options,
            options.depth(),
        ) {
            Err(e) => Err(e),
            Ok((attributes, end)) => Ok(
                (
                    FieldView {
                        access_flags: head[0],
                        name_index: head[1],
                        descriptor_index: head[2],
                        attributes,
                    },
                    end,
                ),
            ),
        },
    }
}

/// Reads one field.
pub fn field_from_bytes<'a>(
    parser: &mut ClassParser<'a>,
    constant_pool: &[ConstantPoolEntry<'a>],
    options: DecodeOptions,
) -> (r: Result<Field<'a>, DecodeError>)
    ensures
        final(parser)@.bytes == old(parser)@.bytes,
        final(parser)@.position >= old(parser)@.position,
        viewed(r, final(parser)@.position) == spec_field(
            old(parser)@.bytes,
            old(parser)@.position,
            views(constant_pool@),
            options,
        ),
{
    proof {
        reveal_with_fuel(spec_repeat, 4);
    }
    let access_flags: u16 = parser.u2()?;
    let name_index: u16 = parser.u2()?;
    let descriptor_index: u16 = parser.u2()?;
    let attributes = attributes_from_bytes(parser, constant_pool, options, options.depth())?;
    Ok(Field { access_flags, name_index, descriptor_index, attributes })
}

/// Reads a 16-bit count and that many fields.
#[verifier::loop_isolation(false)]
pub fn fields_from_bytes<'a>(
    parser: &mut ClassParser<'a>,
    constant_pool: &[ConstantPoolEntry<'a>],
    options: DecodeOptions,
) -> (r: Result<Vec<Field<'a>>, DecodeError>)
    ensures
        final(parser)@.bytes == old(parser)@.bytes,
        final(parser)@.position >= old(parser)@.position,
        viewed_list(r, final(parser)@.position) == spec_counted(
            old(parser)@.bytes,
            old(parser)@.position,
            field_at(old(parser)@.bytes, views(constant_pool@), options),
        ),
{
    let count: u16 = parser.u2()?;
    let ghost item_at = field_at(parser@.bytes, views(constant_pool@), options);
    let ghost first = parser@.position;
    let mut items: Vec<Field<'a>> = Vec::new();
    let mut i: u16 = 0;
    proof {
        lemma_repeat_start(item_at, first, count as nat);
    }
    while i < count
        invariant
            parser@.bytes == old(parser)@.bytes,
            parser@.position >= first,
            i <= count,
            spec_repeat(item_at, first, count as nat) == prepend(
                views(items@),
                spec_repeat(item_at, parser@.position, (count - i) as nat),
            ),
        decreases count - i,
    {
        proof {
            lemma_repeat_step(item_at, views(items@), parser@.position, (count - i) as nat);
        }
        let item = field_from_bytes(parser, constant_pool, options)?;
        proof {
            lemma_views_push(items@, item);
        }
        items.push(item);
        i = i + 1;
    }
    proof {
        lemma_repeat_done(item_at, views(items@), parser@.position);
    }
    Ok(items)
}

/// The decoder of one method, as a function of the position.
pub open spec fn method_at(
    bytes: Seq<u8>,
    pool: Seq<ConstantPoolEntryView>,
    options: DecodeOptions,
) -> spec_fn(int) -> Decoded<MethodView> {
    |pos: int| spec_method(bytes, pos, pool, options)
}

/// A method at `pos`: its access flags, the indices of its name and
/// descriptor, and its attributes.
pub open spec fn spec_method(
    bytes: Seq<u8>,
    pos: int,
    pool: Seq<ConstantPoolEntryView>,
    options: DecodeOptions,
) -> Decoded<MethodView> {
    match spec_u2_run(bytes, pos, 3) {
        Err(e) => Err(e),
        Ok((head, at_attributes)) => match spec_attributes(
            bytes,
            at_attributes,
            pool,
            options,
            options.depth(),
        ) {
            Err(e) => Err(e),
            Ok((attributes, end)) => Ok(
                (
                    MethodView {
                        access_flags: head[0],
                        name_index: head[1],
                        descriptor_index: head[2],
                        attributes,
                    },
                    end,
                ),
            ),
        },
    }
}

/// Reads one method.
pub fn method_from_bytes<'a>(
    parser: &mut ClassParser<'a>,
    constant_pool: &[ConstantPoolEntry<'a>],
    options: DecodeOptions,
) -> (r: Result<Method<'a>, DecodeError>)
    ensures
        final(parser)@.bytes == old(parser)@.bytes,
        final(parser)@.position >= old(parser)@.position,
        viewed(r, final(parser)@.position) == spec_method(
            old(parser)@.bytes,
            old(parser)@.position,
            views(constant_pool@),
            options,
        ),
{
    proof {
        reveal_with_fuel(spec_repeat, 4);
    }
    let access_flags: u16 = parser.u2()?;
    let name_index: u16 = parser.u2()?;
    let descriptor_index: u16 = parser.u2()?;
    let attributes = attributes_from_bytes(parser, constant_pool, options, options.depth())?;
    Ok(Method { access_flags, name_index, descriptor_index, attributes })
}

/// Reads a 16-bit count and that many methods.
#[verifier::loop_isolation(false)]
pub fn methods_from_bytes<'a>(
    parser: &mut ClassParser<'a>,
    constant_pool: &[ConstantPoolEntry<'a>],
    options: DecodeOptions,
) -> (r: Result<Vec<Method<'a>>, DecodeError>)
    ensures
        final(parser)@.bytes == old(parser)@.bytes,
        final(parser)@.position >= old(parser)@.position,
        viewed_list(r, final(parser)@.position) == spec_counted(
            old(parser)@.bytes,
            old(parser)@.position,
            method_at(old(parser)@.bytes, views(constant_pool@), options),
        ),
{
    let count: u16 = parser.u2()?;
    let ghost item_at = method_at(parser@.bytes, views(constant_pool@), options);
    let ghost first = parser@.position;
    let mut items: Vec<Method<'a>> = Vec::new();
    let mut i: u16 = 0;
    proof {
        lemma_repeat_start(item_at, first, count as nat);
    }
    while i < count
        invariant
            parser@.bytes == old(parser)@.bytes,
            parser@.position >= first,
            i <= count,
            spec_repeat(item_at, first, count as nat) == prepend(
                views(items@),
                spec_repeat(item_at, parser@.position, (count - i) as nat),
            ),
        decreases count - i,
    {
        proof {
            lemma_repeat_step(item_at, views(items@), parser@.position, (count - i) as nat);
        }
        let item = method_from_bytes(parser, constant_pool, options)?;
        proof {
            lemma_views_push(items@, item);
        }
        items.push(item);
        i = i + 1;
    }
    proof {
        lemma_repeat_done(item_at, views(items@), parser@.position);
    }
    Ok(items)
}

/// What follows the constant pool `pool` in a class file, from `pos` on:
/// the access flags and the indices of this class and its superclass, the
/// interfaces, the fields, the methods and the attributes. `version` is put
/// into the result as it is.
pub open spec fn spec_classfile_body(
    bytes: Seq<u8>,
    pos: int,
    version: Version,
    pool: Seq<ConstantPoolEntryView>,
    options: DecodeOptions,
) -> Decoded<ClassfileView> {
    match spec_u2_run(bytes, pos, 3) {
        Err(e) => Err(e),
        Ok((head, at_interfaces)) => match spec_u2_list(bytes, at_interfaces) {
            Err(e) => Err(e),
            Ok((interfaces, at_fields)) => match spec_counted(
                bytes,
                at_fields,
                field_at(bytes, pool, options),
            ) {
                Err(e) => Err(e),
                Ok((fields, at_methods)) => match spec_counted(
                    bytes,
                    at_methods,
                    method_at(bytes, pool, options),
                ) {
                    Err(e) => Err(e),
                    Ok((methods, at_attributes)) => match spec_attributes(
                        bytes,
                        at_attributes,
                        pool,
                        options,
                        options.depth(),
                    ) {
                        Err(e) => Err(e),
                        Ok((attributes, end)) => Ok(
                            (
                                ClassfileView {
                                    version,
                                    constant_pool: pool,
                                    access_flags: head[0],
                                    this_class: head[1],
                                    super_class: head[2],
                                    interfaces,
                                    fields,
                                    methods,
                                    attributes,
                                },
                                end,
                            ),
                        ),
                    },
                },
            },
        },
    }
}

/// A class file at `pos`: the magic bytes, the version, the constant pool,
/// and what follows it. Four bytes that are not the magic bytes are refused
/// at `pos`, whatever comes after them.
pub open spec fn spec_classfile(bytes: Seq<u8>, pos: int, options: DecodeOptions) -> Decoded<
    ClassfileView,
> {
    match spec_u4(bytes, pos) {
        Err(e) => Err(e),
        Ok((magic, at_version)) => if magic != MAGIC {
            Err(DecodeErrorView::MagicMismatch { offset: pos })
        } else {
            match spec_classfile_version(bytes, at_version) {
                Err(e) => Err(e),
                Ok((version, at_pool)) => match spec_constant_pool(bytes, at_pool) {
                    Err(e) => Err(e),
                    Ok((pool, at_body)) => spec_classfile_body(
                        bytes,
                        at_body,
                        version,
                        pool,
                        options,
                    ),
                },
            }
        },
    }
}

impl<'class> ClassParser<'class> {
    /// Parses a [`Classfile`] with the choices that `options` makes, from
    /// the current position on, and returns it if it succeeds in doing so.
    pub fn parse_with(&mut self, options: DecodeOptions) -> (r: Result<
        Classfile<'class>,
        DecodeError,
    >)
        ensures
            final(self)@.bytes == old(self)@.bytes,
            final(self)@.position >= old(self)@.position,
            viewed(r, final(self)@.position) == spec_classfile(
                old(self)@.bytes,
                old(self)@.position,
                options,
            ),
            r is Ok ==> final(self)@.position <= old(self)@.bytes.len(),
    {
        proof {
            reveal_with_fuel(spec_repeat, 4);
            lemma_classfile_ends_within_buffer(self@.bytes, self@.position, options);
        }
        let start: usize = self.position();
        // make sure the magic bytes are there, to indicate a valid Java classfile
        let magic: u32 = self.u4()?;
        if magic != MAGIC {
            return Err(DecodeError::MagicMismatch { offset: start });
        }
        let version = classfile_version_from_bytes(self)?;
        let constant_pool = constant_pool_from_bytes(self)?;
        let access_flags: u16 = self.u2()?;
        let this_class: u16 = self.u2()?;
        let super_class: u16 = self.u2()?;
        let interfaces = u2_list_from_bytes(self)?;
        let fields = fields_from_bytes(self, constant_pool.as_slice(), options)?;
        let methods = methods_from_bytes(self, constant_pool.as_slice(), options)?;
        let attributes = attributes_from_bytes(
            self,
            constant_pool.as_slice(),
            options,
            options.depth(),
        )?;
        Ok(
            Classfile {
                version,
                constant_pool,
                access_flags,
                this_class,
                super_class,
                interfaces,
                fields,
                methods,
                attributes,
            },
        )
    }

    /// Parses a [`Classfile`] and returns it if it succeeds in doing so.
    ///
    /// The decode is strict and has the default nesting limit.
    ///
    /// [`Classfile`]: crate::Classfile
    pub fn parse(&mut self) -> (r: Result<Classfile<'class>, DecodeError>)
        ensures
            final(self)@.bytes == old(self)@.bytes,
            final(self)@.position >= old(self)@.position,
            viewed(r, final(self)@.position) == spec_classfile(
                old(self)@.bytes,
                old(self)@.position,
                DecodeOptions::new(),
            ),
            r is Ok ==> final(self)@.position <= old(self)@.bytes.len(),
    {
        self.parse_with(DecodeOptions::new())
    }
}

/// What a decode of a whole buffer returns, as a [`Decoded`]: the class file
/// and the number of bytes that it took up, or the error.
pub open spec fn decoded_classfile(r: Result<(Classfile, usize), DecodeError>) -> Decoded<
    ClassfileView,
> {
    match r {
        Ok((classfile, consumed)) => Ok((classfile@, consumed as int)),
        Err(e) => Err(e@),
    }
}

/// Decodes the class file that `bytes` starts with, with the choices that
/// `options` makes. Returns the class file and the number of bytes that it
/// took up; what follows them in `bytes` is not looked at.
pub fn classfile_from_bytes_with(bytes: &[u8], options: DecodeOptions) -> (r: Result<
    (Classfile, usize),
    DecodeError,
>)
    ensures
        decoded_classfile(r) == spec_classfile(bytes@, 0, options),
        r matches Ok((_, consumed)) ==> consumed <= bytes@.len(),
{
    proof {
        lemma_classfile_ends_within_buffer(bytes@, 0, options);
    }
    let mut parser = ClassParser::new(bytes);
    let classfile = parser.parse_with(options)?;
    Ok((classfile, parser.position()))
}

/// Decodes the class file that `bytes` starts with. The decode is strict and
/// has the default nesting limit. Returns the class file and the number of
/// bytes that it took up; what follows them in `bytes` is not looked at.
pub fn classfile_from_bytes(bytes: &[u8]) -> (r: Result<(Classfile, usize), DecodeError>)
    ensures
        decoded_classfile(r) == spec_classfile(bytes@, 0, DecodeOptions::new()),
        r matches Ok((_, consumed)) ==> consumed <= bytes@.len(),
{
    classfile_from_bytes_with(bytes, DecodeOptions::new())
}

} // verus!
