//! The document model. Every type has a mathematical value, its view, and a mapping of that
//! value to the XML element that stands for it.

pub mod datatypes;
pub mod document;
pub mod header;
pub mod hierarchy;
pub mod spec_object;
pub mod spec_types;
pub mod specification;

pub use self::datatypes::{get_default_last_change_date, DataType, DataTypeView, DataTypes};
pub use self::document::{ContentView, CoreContent, ReqIf, ReqIfContent, ReqIfView};
pub use self::header::{ReqIfHeader, ReqIfHeaderView, TheHeader};
pub use self::hierarchy::{Children, HierarchyView, Object, SpecHierarchy};
pub use self::spec_object::{
    AttributeValueView, AttributeValueXHtml, AttributeValueXHtmlDefinition, RequirementValuesView,
    RequirementView, SpecObjectRequirement, SpecObjectRequirementValues, SpecObjectType,
    SpecObjects, XHtmlValue,
};
pub use self::spec_types::{
    AttributeDefinitionView, AttributeDefinitionXHtml, RequirementAttributesView,
    RequirementSpecObjectTypeAttributes, SpecObjectTypeRequirement, SpecObjectTypeView, SpecTypes,
    SpecTypesView, SpecificationTypeModule, SpecificationTypeModuleAttributes,
    SpecificationTypeView, TypeDefinitionXHtmlRef,
};
pub use self::specification::{Specification, SpecificationRef, SpecificationView, Specifications};
