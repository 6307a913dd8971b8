//! Attributes: the named, length-prefixed records attached to a class, a
//! field, a method, a record component or a `Code` attribute.

use crate::annotation::{
    Annotation, AnnotationView, ElementValue, ElementValueView, TypeAnnotation, TypeAnnotationView,
};
use crate::outcome::views;
use crate::records::{
    BootstrapMethod, BootstrapMethodView, ExceptionTableEntry, InnerClass, LineNumber,
    LocalVariable, LocalVariableType, MethodParameter, ModuleExports, ModuleExportsView,
    ModuleOpens, ModuleOpensView, ModuleProvides, ModuleProvidesView, ModuleRequires,
};
use crate::stack_map::{StackMapFrame, StackMapFrameView};
use crate::text::str_equal;
use vstd::prelude::*;

verus! {

/// What an attribute holds, by its name. `Unknown` is what a permissive
/// decode keeps of an attribute whose name no decoder is registered for: the
/// index of the name and the body, not looked into.
#[allow(inconsistent_fields)]
#[derive(Debug, PartialEq, Eq)]
pub enum AttributeInfo<'class> {
    AnnotationDefault {
        default_value: ElementValue,
    },
    BootstrapMethods {
        bootstrap_methods: Vec<BootstrapMethod>,
    },
    Code {
        max_stack: u16,
        max_locals: u16,
        code: &'class [u8],
        exception_table: Vec<ExceptionTableEntry>,
        attributes: Vec<Attribute<'class>>,
    },
    ConstantValue {
        constantvalue_index: u16,
    },
    Deprecated,
    EnclosingMethod {
        class_index: u16,
        method_index: u16,
    },
    Exceptions {
        exception_index_table: Vec<u16>,
    },
    InnerClasses {
        classes: Vec<InnerClass>,
    },
    LineNumberTable {
        line_number_table: Vec<LineNumber>,
    },
    LocalVariableTable {
        local_variable_table: Vec<LocalVariable>,
    },
    LocalVariableTypeTable {
        local_variable_type_table: Vec<LocalVariableType>,
    },
    MethodParameters {
        parameters: Vec<MethodParameter>,
    },
    Module {
        module_name_index: u16,
        module_flags: u16,
        module_version_index: u16,
        module_requires: Vec<ModuleRequires>,
        exports: Vec<ModuleExports>,
        opens: Vec<ModuleOpens>,
        uses: Vec<u16>,
        provides: Vec<ModuleProvides>,
    },
    ModuleMainClass {
        main_class_index: u16,
    },
    ModulePackages {
        package_index: Vec<u16>,
    },
    NestHost {
        host_class_index: u16,
    },
    NestMembers {
        classes: Vec<u16>,
    },
    PermittedSubclasses {
        classes: Vec<u16>,
    },
    Record {
        components: Vec<RecordComponent<'class>>,
    },
    RuntimeInvisibleAnnotations {
        annotations: Vec<Annotation>,
    },
    RuntimeInvisibleParameterAnnotations {
        parameter_annotations: Vec<Annotation>,
    },
    RuntimeInvisibleTypeAnnotations {
        type_annotations: Vec<TypeAnnotation>,
    },
    RuntimeVisibleAnnotations {
        annotations: Vec<Annotation>,
    },
    RuntimeVisibleParameterAnnotations {
        parameter_annotations: Vec<Annotation>,
    },
    RuntimeVisibleTypeAnnotations {
        type_annotations: Vec<TypeAnnotation>,
    },
    Signature {
        signature_index: u16,
    },
    SourceDebugExtension {
        debug_extension: &'class [u8],
    },
    SourceFile {
        sourcefile_index: u16,
    },
    StackMapTable {
        entries: Vec<StackMapFrame>,
    },
    Synthetic,
    Unknown {
        name_index: u16,
        info: &'class [u8],
    },
}

#[derive(Debug, PartialEq, Eq)]
pub struct Attribute<'class> {
    pub info: AttributeInfo<'class>,
}

#[derive(Debug, PartialEq, Eq)]
pub struct RecordComponent<'a> {
    pub name_index: u16,
    pub descriptor_index: u16,
    pub attributes: Vec<Attribute<'a>>,
}

/// The mathematical value of an [`AttributeInfo`].
#[allow(inconsistent_fields)]
pub ghost enum AttributeInfoView {
    AnnotationDefault {
        default_value: ElementValueView,
    },
    BootstrapMethods {
        bootstrap_methods: Seq<BootstrapMethodView>,
    },
    Code {
        max_stack: u16,
        max_locals: u16,
        code: Seq<u8>,
        exception_table: Seq<ExceptionTableEntry>,
        attributes: Seq<AttributeView>,
    },
    ConstantValue {
        constantvalue_index: u16,
    },
    Deprecated,
    EnclosingMethod {
        class_index: u16,
        method_index: u16,
    },
    Exceptions {
        exception_index_table: Seq<u16>,
    },
    InnerClasses {
        classes: Seq<InnerClass>,
    },
    LineNumberTable {
        line_number_table: Seq<LineNumber>,
    },
    LocalVariableTable {
        local_variable_table: Seq<LocalVariable>,
    },
    LocalVariableTypeTable {
        local_variable_type_table: Seq<LocalVariableType>,
    },
    MethodParameters {
        parameters: Seq<MethodParameter>,
    },
    Module {
        module_name_index: u16,
        module_flags: u16,
        module_version_index: u16,
        module_requires: Seq<ModuleRequires>,
        exports: Seq<ModuleExportsView>,
        opens: Seq<ModuleOpensView>,
        uses: Seq<u16>,
        provides: Seq<ModuleProvidesView>,
    },
    ModuleMainClass {
        main_class_index: u16,
    },
    ModulePackages {
        package_index: Seq<u16>,
    },
    NestHost {
        host_class_index: u16,
    },
    NestMembers {
        classes: Seq<u16>,
    },
    PermittedSubclasses {
        classes: Seq<u16>,
    },
    Record {
        components: Seq<RecordComponentView>,
    },
    RuntimeInvisibleAnnotations {
        annotations: Seq<AnnotationView>,
    },
    RuntimeInvisibleParameterAnnotations {
        parameter_annotations: Seq<AnnotationView>,
    },
    RuntimeInvisibleTypeAnnotations {
        type_annotations: Seq<TypeAnnotationView>,
    },
    RuntimeVisibleAnnotations {
        annotations: Seq<AnnotationView>,
    },
    RuntimeVisibleParameterAnnotations {
        parameter_annotations: Seq<AnnotationView>,
    },
    RuntimeVisibleTypeAnnotations {
        type_annotations: Seq<TypeAnnotationView>,
    },
    Signature {
        signature_index: u16,
    },
    SourceDebugExtension {
        debug_extension: Seq<u8>,
    },
    SourceFile {
        sourcefile_index: u16,
    },
    StackMapTable {
        entries: Seq<StackMapFrameView>,
    },
    Synthetic,
    Unknown {
        name_index: u16,
        info: Seq<u8>,
    },
}

/// The mathematical value of an [`Attribute`].
pub ghost struct AttributeView {
    pub info: AttributeInfoView,
}

/// The mathematical value of a [`RecordComponent`].
pub ghost struct RecordComponentView {
    pub name_index: u16,
    pub descriptor_index: u16,
    pub attributes: Seq<AttributeView>,
}

/// The values of the attributes of a list, in order.
pub open spec fn attribute_views(attributes: Vec<Attribute>) -> Seq<AttributeView>
    decreases attributes,
{
    Seq::new(
        attributes@.len(),
        |i: int|
            if 0 <= i < attributes@.len() {
                attribute_view(attributes@[i])
            } else {
                AttributeView { info: AttributeInfoView::Deprecated }
            },
    )
}

/// The value of an attribute.
pub open spec fn attribute_view(attribute: Attribute) -> AttributeView
    decreases attribute,
{
    AttributeView { info: attribute_info_view(attribute.info) }
}

/// The value of a record component.
pub open spec fn record_component_view(component: RecordComponent) -> RecordComponentView
    decreases component,
{
    RecordComponentView {
        name_index: component.name_index,
        descriptor_index: component.descriptor_index,
        attributes: attribute_views(component.attributes),
    }
}

/// The value of what an attribute holds: that of each part, lists item by item.
pub open spec fn attribute_info_view(info: AttributeInfo) -> AttributeInfoView
    decreases info,
{
    match info {
        AttributeInfo::AnnotationDefault { default_value } => AttributeInfoView::AnnotationDefault {
            default_value: default_value@,
        },
        AttributeInfo::BootstrapMethods {
            bootstrap_methods,
        } => AttributeInfoView::BootstrapMethods {
            bootstrap_methods: views(bootstrap_methods@),
        },
        AttributeInfo::Code {
            max_stack,
            max_locals,
            code,
            exception_table,
            attributes,
        } => AttributeInfoView::Code {
            max_stack,
            max_locals,
            code: code@,
            exception_table: exception_table@,
            attributes: attribute_views(attributes),
        },
        AttributeInfo::ConstantValue { constantvalue_index } => AttributeInfoView::ConstantValue {
            constantvalue_index,
        },
        AttributeInfo::Deprecated => AttributeInfoView::Deprecated,
        AttributeInfo::EnclosingMethod {
            class_index,
            method_index,
        } => AttributeInfoView::EnclosingMethod {
            class_index,
            method_index,
        },
        AttributeInfo::Exceptions { exception_index_table } => AttributeInfoView::Exceptions {
            exception_index_table: exception_index_table@,
        },
        AttributeInfo::InnerClasses { classes } => AttributeInfoView::InnerClasses {
            classes: classes@,
        },
        AttributeInfo::LineNumberTable { line_number_table } => AttributeInfoView::LineNumberTable {
            line_number_table: line_number_table@,
        },
        AttributeInfo::LocalVariableTable {
            local_variable_table,
        } => AttributeInfoView::LocalVariableTable {
            local_variable_table: local_variable_table@,
        },
        AttributeInfo::LocalVariableTypeTable {
            local_variable_type_table,
        } => AttributeInfoView::LocalVariableTypeTable {
            local_variable_type_table: local_variable_type_table@,
        },
        AttributeInfo::MethodParameters { parameters } => AttributeInfoView::MethodParameters {
            parameters: parameters@,
        },
        AttributeInfo::Module {
            module_name_index,
            module_flags,
            module_version_index,
            module_requires,
            exports,
            opens,
            uses,
            provides,
        } => AttributeInfoView::Module {
            module_name_index,
            module_flags,
            module_version_index,
            module_requires: module_requires@,
            exports: views(exports@),
            opens: views(opens@),
            uses: uses@,
            provides: views(provides@),
        },
        AttributeInfo::ModuleMainClass { main_class_index } => AttributeInfoView::ModuleMainClass {
            main_class_index,
        },
        AttributeInfo::ModulePackages { package_index } => AttributeInfoView::ModulePackages {
            package_index: package_index@,
        },
        AttributeInfo::NestHost { host_class_index } => AttributeInfoView::NestHost {
            host_class_index,
        },
        AttributeInfo::NestMembers { classes } => AttributeInfoView::NestMembers {
            classes: classes@,
        },
        AttributeInfo::PermittedSubclasses { classes } => AttributeInfoView::PermittedSubclasses {
            classes: classes@,
        },
        AttributeInfo::Record { components } => AttributeInfoView::Record {
            components: Seq::new(
                components@.len(),
                |i: int|
                    if 0 <= i < components@.len() {
                        record_component_view(components@[i])
                    } else {
                        RecordComponentView {
                            name_index: 0,
                            descriptor_index: 0,
                            attributes: Seq::empty(),
                        }
                    },
            ),
        },
        AttributeInfo::RuntimeInvisibleAnnotations {
            annotations,
        } => AttributeInfoView::RuntimeInvisibleAnnotations {
            annotations: views(annotations@),
        },
        AttributeInfo::RuntimeInvisibleParameterAnnotations {
            parameter_annotations,
        } => AttributeInfoView::RuntimeInvisibleParameterAnnotations {
            parameter_annotations: views(parameter_annotations@),
        },
        AttributeInfo::RuntimeInvisibleTypeAnnotations {
            type_annotations,
        } => AttributeInfoView::RuntimeInvisibleTypeAnnotations {
            type_annotations: views(type_annotations@),
        },
        AttributeInfo::RuntimeVisibleAnnotations {
            annotations,
        } => AttributeInfoView::RuntimeVisibleAnnotations {
            annotations: views(annotations@),
        },
        AttributeInfo::RuntimeVisibleParameterAnnotations {
            parameter_annotations,
        } => AttributeInfoView::RuntimeVisibleParameterAnnotations {
            parameter_annotations: views(parameter_annotations@),
        },
        AttributeInfo::RuntimeVisibleTypeAnnotations {
            type_annotations,
        } => AttributeInfoView::RuntimeVisibleTypeAnnotations {
            type_annotations: views(type_annotations@),
        },
        AttributeInfo::Signature { signature_index } => AttributeInfoView::Signature {
            signature_index,
        },
        AttributeInfo::SourceDebugExtension {
            debug_extension,
        } => AttributeInfoView::SourceDebugExtension {
            debug_extension: debug_extension@,
        },
        AttributeInfo::SourceFile { sourcefile_index } => AttributeInfoView::SourceFile {
            sourcefile_index,
        },
        AttributeInfo::StackMapTable { entries } => AttributeInfoView::StackMapTable {
            entries: views(entries@),
        },
        AttributeInfo::Synthetic => AttributeInfoView::Synthetic,
        AttributeInfo::Unknown { name_index, info } => AttributeInfoView::Unknown {
            name_index,
            info: info@,
        },
    }
}

impl<'class> View for AttributeInfo<'class> {
    type V = AttributeInfoView;

    open spec fn view(&self) -> AttributeInfoView {
        attribute_info_view(*self)
    }
}

impl<'class> View for Attribute<'class> {
    type V = AttributeView;

    open spec fn view(&self) -> AttributeView {
        attribute_view(*self)
    }
}

impl<'a> View for RecordComponent<'a> {
    type V = RecordComponentView;

    open spec fn view(&self) -> RecordComponentView {
        record_component_view(*self)
    }
}

/// The values of a list of attributes are the views of its items.
pub proof fn lemma_attribute_views(attributes: Vec<Attribute>)
    ensures
        attribute_views(attributes) == views(attributes@),
{
    assert(attribute_views(attributes) =~= views(attributes@));
}

/// A `Record` attribute's value holds the values of its components.
pub proof fn lemma_record_view(components: Vec<RecordComponent>)
    ensures
        (AttributeInfo::Record { components })@ == (AttributeInfoView::Record {
            components: views(components@),
        }),
{
    assert((AttributeInfo::Record { components })@->components =~= views(components@));
}

/// The attributes that a decoder is registered for, one per name.
#[derive(Clone, Copy, Debug, PartialEq, Eq, Structural)]
pub enum AttributeKind {
    AnnotationDefault,
    BootstrapMethods,
    Code,
    ConstantValue,
    Deprecated,
    EnclosingMethod,
    Exceptions,
    InnerClasses,
    LineNumberTable,
    LocalVariableTable,
    LocalVariableTypeTable,
    MethodParameters,
    Module,
    ModuleMainClass,
    ModulePackages,
    NestHost,
    NestMembers,
    PermittedSubclasses,
    Record,
    RuntimeInvisibleAnnotations,
    RuntimeInvisibleParameterAnnotations,
    RuntimeInvisibleTypeAnnotations,
    RuntimeVisibleAnnotations,
    RuntimeVisibleParameterAnnotations,
    RuntimeVisibleTypeAnnotations,
    Signature,
    SourceDebugExtension,
    SourceFile,
    StackMapTable,
    Synthetic,
}

/// The attribute that the name `name` stands for, if a decoder is registered
/// for it. A name is matched whole and by case.
pub open spec fn spec_attribute_kind(name: Seq<char>) -> Option<AttributeKind> {
    if name == "AnnotationDefault"@ {
        Some(AttributeKind::AnnotationDefault)
    } else if name == "BootstrapMethods"@ {
        Some(AttributeKind::BootstrapMethods)
    } else if name == "Code"@ {
        Some(AttributeKind::Code)
    } else if name == "ConstantValue"@ {
        Some(AttributeKind::ConstantValue)
    } else if name == "Deprecated"@ {
        Some(AttributeKind::Deprecated)
    } else if name == "EnclosingMethod"@ {
        Some(AttributeKind::EnclosingMethod)
    } else if name == "Exceptions"@ {
        Some(AttributeKind::Exceptions)
    } else if name == "InnerClasses"@ {
        Some(AttributeKind::InnerClasses)
    } else if name == "LineNumberTable"@ {
        Some(AttributeKind::LineNumberTable)
    } else if name == "LocalVariableTable"@ {
        Some(AttributeKind::LocalVariableTable)
    } else if name == "LocalVariableTypeTable"@ {
        Some(AttributeKind::LocalVariableTypeTable)
    } else if name == "MethodParameters"@ {
        Some(AttributeKind::MethodParameters)
    } else if name == "Module"@ {
        Some(AttributeKind::Module)
    } else if name == "ModuleMainClass"@ {
        Some(AttributeKind::ModuleMainClass)
    } else if name == "ModulePackages"@ {
        Some(AttributeKind::ModulePackages)
    } else if name == "NestHost"@ {
        Some(AttributeKind::NestHost)
    } else if name == "NestMembers"@ {
        Some(AttributeKind::NestMembers)
    } else if name == "PermittedSubclasses"@ {
        Some(AttributeKind::PermittedSubclasses)
    } else if name == "Record"@ {
        Some(AttributeKind::Record)
    } else if name == "RuntimeInvisibleAnnotations"@ {
        Some(AttributeKind::RuntimeInvisibleAnnotations)
    } else if name == "RuntimeInvisibleParameterAnnotations"@ {
        Some(AttributeKind::RuntimeInvisibleParameterAnnotations)
    } else if name == "RuntimeInvisibleTypeAnnotations"@ {
        Some(AttributeKind::RuntimeInvisibleTypeAnnotations)
    } else if name == "RuntimeVisibleAnnotations"@ {
        Some(AttributeKind::RuntimeVisibleAnnotations)
    } else if name == "RuntimeVisibleParameterAnnotations"@ {
        Some(AttributeKind::RuntimeVisibleParameterAnnotations)
    } else if name == "RuntimeVisibleTypeAnnotations"@ {
        Some(AttributeKind::RuntimeVisibleTypeAnnotations)
    } else if name == "Signature"@ {
        Some(AttributeKind::Signature)
    } else if name == "SourceDebugExtension"@ {
        Some(AttributeKind::SourceDebugExtension)
    } else if name == "SourceFile"@ {
        Some(AttributeKind::SourceFile)
    } else if name == "StackMapTable"@ {
        Some(AttributeKind::StackMapTable)
    } else if name == "Synthetic"@ {
        Some(AttributeKind::Synthetic)
    } else {
        None
    }
}

/// The attribute that the name `name` stands for, if a decoder is registered
/// for it.
pub fn attribute_kind(name: &str) -> (kind: Option<AttributeKind>)
    ensures
        kind == spec_attribute_kind(name@),
{
    if str_equal(name, "AnnotationDefault") {
        Some(AttributeKind::AnnotationDefault)
    } else if str_equal(name, "BootstrapMethods") {
        Some(AttributeKind::BootstrapMethods)
    } else if str_equal(name, "Code") {
        Some(AttributeKind::Code)
    } else if str_equal(name, "ConstantValue") {
        Some(AttributeKind::ConstantValue)
    } else if str_equal(name, "Deprecated") {
        Some(AttributeKind::Deprecated)
    } else if str_equal(name, "EnclosingMethod") {
        Some(AttributeKind::EnclosingMethod)
    } else if str_equal(name, "Exceptions") {
        Some(AttributeKind::Exceptions)
    } else if str_equal(name, "InnerClasses") {
        Some(AttributeKind::InnerClasses)
    } else if str_equal(name, "LineNumberTable") {
        Some(AttributeKind::LineNumberTable)
    } else if str_equal(name, "LocalVariableTable") {
        Some(AttributeKind::LocalVariableTable)
    } else if str_equal(name, "LocalVariableTypeTable") {
        Some(AttributeKind::LocalVariableTypeTable)
    } else if str_equal(name, "MethodParameters") {
        Some(AttributeKind::MethodParameters)
    } else if str_equal(name, "Module") {
        Some(AttributeKind::Module)
    } else if str_equal(name, "ModuleMainClass") {
        Some(AttributeKind::ModuleMainClass)
    } else if str_equal(name, "ModulePackages") {
        Some(AttributeKind::ModulePackages)
    } else if str_equal(name, "NestHost") {
        Some(AttributeKind::NestHost)
    } else if str_equal(name, "NestMembers") {
        Some(AttributeKind::NestMembers)
    } else if str_equal(name, "PermittedSubclasses") {
        Some(AttributeKind::PermittedSubclasses)
    } else if str_equal(name, "Record") {
        Some(AttributeKind::Record)
    } else if str_equal(name, "RuntimeInvisibleAnnotations") {
        Some(AttributeKind::RuntimeInvisibleAnnotations)
    } else if str_equal(name, "RuntimeInvisibleParameterAnnotations") {
        Some(AttributeKind::RuntimeInvisibleParameterAnnotations)
    } else if str_equal(name, "RuntimeInvisibleTypeAnnotations") {
        Some(AttributeKind::RuntimeInvisibleTypeAnnotations)
    } else if str_equal(name, "RuntimeVisibleAnnotations") {
        Some(AttributeKind::RuntimeVisibleAnnotations)
    } else if str_equal(name, "RuntimeVisibleParameterAnnotations") {
        Some(AttributeKind::RuntimeVisibleParameterAnnotations)
    } else if str_equal(name, "RuntimeVisibleTypeAnnotations") {
        Some(AttributeKind::RuntimeVisibleTypeAnnotations)
    } else if str_equal(name, "Signature") {
        Some(AttributeKind::Signature)
    } else if str_equal(name, "SourceDebugExtension") {
        Some(AttributeKind::SourceDebugExtension)
    } else if str_equal(name, "SourceFile") {
        Some(AttributeKind::SourceFile)
    } else if str_equal(name, "StackMapTable") {
        Some(AttributeKind::StackMapTable)
    } else if str_equal(name, "Synthetic") {
        Some(AttributeKind::Synthetic)
    } else {
        None
    }
}

} // verus!
