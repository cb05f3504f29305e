//! Types used by specific PDF structures.

pub use crate::actions::{ActionType, RenditionOperation};
pub use crate::annotations::{
    AnnotationIcon, AnnotationType, BorderType, HighlightEffect, IconScale, IconScaleType,
    TextPosition,
};
pub use crate::attributes::{
    AttributeOwner, BlockAlign, FieldCheckState, FieldRole, InlineAlign, LayoutBorderStyle,
    ListNumbering, Placement, RubyAlign, RubyPosition, TableHeadingScope, TextAlign,
    TextDecorationType, WritingMode,
};
pub use crate::color::{
    ColorSpaceType, DeviceNSubtype, OutputIntentSubtype, PaintType, ShadingType, TilingType,
};
pub use crate::content::{
    ArtifactAttachment, ArtifactSubtype, ArtifactType, BlendMode, ColorSpaceOperand,
    LineCapStyle, LineJoinStyle, MaskType, OverprintMode, ProcSet, RenderingIntent,
    TextRenderingMode,
};
pub use crate::font::{CidFontType, CjkClass, FontStretch, GlyphId, SystemInfo, UnicodeCmap, WMode};
pub use crate::forms::{
    AccessPermissions, CertificateKeyUsage, CertificateUrlType, CheckBoxState, ChoiceOptions, FieldType,
    LockingIntent, MdpSignatureType, Quadding, SeedValueParserVersion, SignatureDigestMethod,
    SignatureLockAction,
};
pub use crate::functions::{FunctionType, InterpolationOrder, PostScriptOp};
pub use crate::object::Predictor;
pub use crate::renditions::{MediaClipType, RenditionType};
pub use crate::structure::{
    BlockLevelRoleSubtype, Direction, InlineLevelRoleSubtype, InlineLevelRoleSubtype2,
    NumberingStyle, PageLayout, PageMode, PhoneticAlphabet, StructRole, StructRole2,
    StructRoleType, StructRoleType2, TabOrder, TrappingStatus,
};
pub use crate::xobject::SMaskInData;
