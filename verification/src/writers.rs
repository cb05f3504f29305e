//! Strongly typed writers for specific PDF structures.

pub use crate::actions::{Action, AdditionalActions, Fields};
pub use crate::attributes::{
    AttributeArray, Attributes, FieldAttributes, LayoutAttributes, ListAttributes, PropertyAttributes,
    TableAttributes, UserProperties, UserProperty,
};
pub use crate::annotations::{Annotation, Appearance, BorderStyle, IconFit};
pub use crate::color::{
    ColorSpace, DeviceN, DeviceNAttrs, DeviceNMixingHints, DeviceNProcess, IccProfile, OutputIntent,
    Separation, SeparationInfo, Shading, ShadingPattern, TilingPattern,
};
pub use crate::content::{
    Artifact, ExtGraphicsState, MarkContent, Operation, PropertyList, Resources, SoftMask,
};
pub use crate::files::{EmbeddedFile, EmbeddingParams, FileSpec};
pub use crate::font::{
    Cmap, CidFont, Differences, Encoding, Widths, FontDescriptor, FontDescriptorOverride, Type0Font,
    Type1Font, Type3Font,
};
pub use crate::functions::{
    ExponentialFunction, PostScriptFunction, SampledFunction, StitchingFunction,
};
pub use crate::forms::{
    CertificateSeedValue, Field, Form, SignatureFieldLock, SignatureModificationDetectionPrevention,
    SignatureSeedValue, SignatureTimeStamp,
};
pub use crate::renditions::{MediaClip, MediaPlayParams, Rendition};
pub use crate::structure::{
    Catalog, ClassMap, Destination, DeveloperExtension, DocumentInfo, MarkInfo, MarkedRef, Names, Namespace,
    NamespaceRoleMap, ObjectRef, Outline, OutlineItem, Page, PageLabel, Pages, RoleMap,
    Metadata, StructChildren, StructElement, StructTreeRoot, ViewerPreferences,
};
pub use crate::xobject::{FormXObject, Group, ImageXObject, Reference};
