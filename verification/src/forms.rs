use vstd::prelude::*;
use vstd::string::*;

use crate::object::{
    dict_start_limits,
    dict_items_appended,
    dict_name_pair_bytes,
    Null, Primitive, array_items_bytes, array_item_appended, Array, all_writable, array_close_bytes, array_item_bytes, array_separator, array_started, array_tokens_bytes, dict_tokens_entry_bytes, lemma_items_as_tokens, lemma_tokens_push, name_token, str_encoding, token,
    Date, Dict, LBRACKET, Name, NameTree, NumberTree, Obj, Ref, Str, Stream, TextStr, TextStrLike, TypedArray, dict_close_bytes, dict_grown, dict_items_entry_bytes, dict_key_bytes, dict_name_pair_appended, dict_pair_appended, dict_started, start_dict, stream_close_bytes, type_entries_bytes, type_stream, write_items_entry,
};
use crate::actions::{Action, AdditionalActions};
use crate::content::{Resources};
use crate::annotations::{Annotation, AnnotationType};

verus! {

/// The type of a [`Field`].
#[derive(Debug, Copy, Clone, Eq, PartialEq, Hash)]
pub enum FieldType {
    /// A button field, includes push buttons, check boxes and radio buttons.
    Button,
    /// A text field, a box which a user can enter text into.
    Text,
    /// A choice field, list or combo boxes out of which the user may chose at
    /// most one.
    Choice,
    /// A signature field, fields which contain digital signatures and optional
    /// authentication data. PDF 1.3+.
    Signature,
}

impl FieldType {
    /// The name under which the value is written.
    pub open spec fn spec_name(self) -> Seq<u8> {
        match self {
            Self::Button => "Btn".spec_bytes(),
            Self::Text => "Tx".spec_bytes(),
            Self::Choice => "Ch".spec_bytes(),
            Self::Signature => "Sig".spec_bytes(),
        }
    }

    pub(crate) fn to_name(self) -> (r: Name<'static>)
        ensures
            r.0@ == self.spec_name(),
    {
        match self {
            Self::Button => Name("Btn".as_bytes()),
            Self::Text => Name("Tx".as_bytes()),
            Self::Choice => Name("Ch".as_bytes()),
            Self::Signature => Name("Sig".as_bytes()),
        }
    }
}

/// The state of a check box [`Field`].
pub enum CheckBoxState {
    /// The check box selected state `/Yes`.
    Yes,
    /// The check box unselected state `/Off`.
    Off,
}

impl CheckBoxState {
    /// The name under which the value is written.
    pub open spec fn spec_name(self) -> Seq<u8> {
        match self {
            Self::Yes => "Yes".spec_bytes(),
            Self::Off => "Off".spec_bytes(),
        }
    }

    pub(crate) fn to_name(self) -> (r: Name<'static>)
        ensures
            r.0@ == self.spec_name(),
    {
        match self {
            Self::Yes => Name("Yes".as_bytes()),
            Self::Off => Name("Off".as_bytes()),
        }
    }
}

/// In conjunction with the [`/Fields`](SignatureFieldLock::fields) array,
/// indicates the set of fields that should be locked when the signature
/// field is signed.
#[derive(Debug, Copy, Clone, Eq, PartialEq, Hash)]
pub enum SignatureLockAction {
    /// All fields in the document.
    All,
    /// All fields specified in the [`/Fields`](SignatureFieldLock::fields) array.
    Include,
    /// All fields except those specified in the
    /// [`/Fields`](SignatureFieldLock::fields) array.
    Exclude,
}

impl SignatureLockAction {
    /// The name under which the value is written.
    pub open spec fn spec_name(self) -> Seq<u8> {
        match self {
            Self::All => "All".spec_bytes(),
            Self::Include => "Include".spec_bytes(),
            Self::Exclude => "Exclude".spec_bytes(),
        }
    }

    pub(crate) fn to_name(self) -> (r: Name<'static>)
        ensures
            r.0@ == self.spec_name(),
    {
        match self {
            Self::All => Name("All".as_bytes()),
            Self::Include => Name("Include".as_bytes()),
            Self::Exclude => Name("Exclude".as_bytes()),
        }
    }
}

/// The digest algorithm of a signature.
#[derive(Debug, Copy, Clone, Eq, PartialEq, Hash)]
pub enum SignatureDigestMethod {
    /// The SHA-1 digest algorithm. Deprecated in PDF 2.0.
    SHA1,
    /// The SHA-256 digest algorithm.
    SHA256,
    /// The SHA-384 digest algorithm.
    SHA384,
    /// The SHA-512 digest algorithm.
    SHA512,
    /// The RIPEMD-160 digest algorithm.
    RIPEMD160,
}

impl SignatureDigestMethod {
    /// The name under which the value is written.
    pub open spec fn spec_name(self) -> Seq<u8> {
        match self {
            Self::SHA1 => "SHA1".spec_bytes(),
            Self::SHA256 => "SHA256".spec_bytes(),
            Self::SHA384 => "SHA384".spec_bytes(),
            Self::SHA512 => "SHA512".spec_bytes(),
            Self::RIPEMD160 => "RIPEMD160".spec_bytes(),
        }
    }

    pub(crate) fn to_name(self) -> (r: Name<'static>)
        ensures
            r.0@ == self.spec_name(),
    {
        match self {
            Self::SHA1 => Name("SHA1".as_bytes()),
            Self::SHA256 => Name("SHA256".as_bytes()),
            Self::SHA384 => Name("SHA384".as_bytes()),
            Self::SHA512 => Name("SHA512".as_bytes()),
            Self::RIPEMD160 => Name("RIPEMD160".as_bytes()),
        }
    }
}

/// The usage of the [URL entry](CertificateSeedValue::url).
#[derive(Debug, Copy, Clone, Eq, PartialEq, Hash)]
pub enum CertificateUrlType<'a> {
    /// The URL references content that shall be displayed in a web
    /// browser to allow enrolling for a new credential if a matching
    /// credential is not found.
    Browser,
    /// An implementation-specific third-party extension.
    Custom(Name<'a>),
}

impl<'a> CertificateUrlType<'a> {
    /// The name under which the value is written.
    pub open spec fn spec_name(self) -> Seq<u8> {
        match self {
            Self::Browser => "Browser".spec_bytes(),
            Self::Custom(name) => name.0@,
        }
    }

    pub(crate) fn to_name(self) -> (r: Name<'a>)
        ensures
            r.0@ == self.spec_name(),
    {
        match self {
            Self::Browser => Name("Browser".as_bytes()),
            Self::Custom(name) => name,
        }
    }
}

/// The capability of a signature field seed value
/// dictionary parser.
#[derive(Debug, Copy, Clone, Eq, PartialEq, Hash)]
pub enum SeedValueParserVersion {
    /// The parser can recognize all seed value dictionary entries
    /// in a PDF 1.5 file.
    Pdf15,
    /// The parser can recognize all seed value dictionary entries
    /// specified for PDF 1.7 or earlier.
    Pdf17,
    /// The parser can recognize all seed value dictionary entries
    /// specified for PDF 2.0 or earlier.
    Pdf20,
}

impl SeedValueParserVersion {
    /// The number under which the value is written.
    pub open spec fn spec_int(self) -> i32 {
        match self {
            Self::Pdf15 => 1,
            Self::Pdf17 => 2,
            Self::Pdf20 => 3,
        }
    }

    pub(crate) fn to_int(self) -> (r: i32)
        ensures
            r == self.spec_int(),
    {
        match self {
            Self::Pdf15 => 1,
            Self::Pdf17 => 2,
            Self::Pdf20 => 3,
        }
    }
}

/// The access permissions granted for the document
/// without invalidating the signature.
#[derive(Debug, Copy, Clone, Eq, PartialEq, Hash)]
pub enum AccessPermissions {
    /// No changes to the document are permitted.
    NoChanges,
    /// Permitted changes shall be filling in forms, instantiating page
    ///templates, and signing.
    FillAndSign,
    /// Permitted changes are the same as for [`AccessPermissions::FillAndSign`],
    /// as well as annotation creation, deletion, and modification.
    Annotations,
}

impl AccessPermissions {
    /// The number under which the value is written.
    pub open spec fn spec_int(self) -> i32 {
        match self {
            Self::NoChanges => 1,
            Self::FillAndSign => 2,
            Self::Annotations => 3,
        }
    }

    pub(crate) fn to_int(self) -> (r: i32)
        ensures
            r == self.spec_int(),
    {
        match self {
            Self::NoChanges => 1,
            Self::FillAndSign => 2,
            Self::Annotations => 3,
        }
    }
}

/// The quadding (justification) of a field containing variable text.
#[derive(Debug, Copy, Clone, Default, Eq, PartialEq, Hash)]
pub enum Quadding {
    /// Left justify the text.
    #[default]
    Left,
    /// Center justify the text.
    Center,
    /// Right justify the text.
    Right,
}

impl Quadding {
    /// The number under which the quadding is written.
    pub open spec fn spec_int(self) -> i32 {
        match self {
            Self::Left => 0,
            Self::Center => 1,
            Self::Right => 2,
        }
    }

    pub(crate) fn to_int(self) -> (r: i32)
        ensures
            r == self.spec_int(),
    {
        match self {
            Self::Left => 0,
            Self::Center => 1,
            Self::Right => 2,
        }
    }
}

/// The signature type to be used when signing a signature field.
#[derive(Debug, Copy, Clone, Eq, PartialEq, Hash)]
pub enum MdpSignatureType {
    /// The signature shall be an approval signature.
    ApprovalSignature,
    /// The signature shell be a certification signature
    /// with the given access permissions.
    CertificationSignature(AccessPermissions),
}

impl MdpSignatureType {
    /// The number under which the signature type is written.
    pub open spec fn spec_int(self) -> i32 {
        match self {
            Self::ApprovalSignature => 0,
            Self::CertificationSignature(permission) => permission.spec_int(),
        }
    }

    pub(crate) fn to_int(self) -> (r: i32)
        ensures
            r == self.spec_int(),
    {
        match self {
            Self::ApprovalSignature => 0,
            Self::CertificationSignature(permission) => permission.to_int(),
        }
    }
}

/// The locking intent of a signature field.
#[derive(Debug, Copy, Clone, Eq, PartialEq, Hash)]
pub enum LockingIntent {
    /// Document should be locked at the time of signing.
    Lock,
    /// Document should not be locked at the time of signing.
    DoNotLock,
    /// Locking is up to the signer.
    Auto,
}

impl LockingIntent {
    /// The name under which the locking intent is written.
    pub open spec fn spec_name(self) -> Seq<u8> {
        match self {
            Self::Lock => "true".spec_bytes(),
            Self::DoNotLock => "false".spec_bytes(),
            Self::Auto => "auto".spec_bytes(),
        }
    }

    pub(crate) fn to_name<'b>(self) -> (r: Name<'b>)
        ensures
            r.0@ == self.spec_name(),
    {
        match self {
            Self::Lock => Name("true".as_bytes()),
            Self::DoNotLock => Name("false".as_bytes()),
            Self::Auto => Name("auto".as_bytes()),
        }
    }
}

/// The key usages of a certificate.
///
/// For each field of this struct, its value is interpreted as follows:
/// `Some(true)` if it shall be set;
/// `Some(false)` if it shall not be set; or
/// `None` if it does not matter.
#[derive(Debug, Copy, Clone, Eq, PartialEq, Hash, Default)]
pub struct CertificateKeyUsage {
    /// Whether the `digitalSignature` key-usage extension shall be set.
    pub digital_signature: Option<bool>,
    /// Whether the `non-Repudiation` key-usage extension shall be set.
    pub non_repudiation: Option<bool>,
    /// Whether the `keyEncipherment` key-usage extension shall be set.
    pub key_encipherment: Option<bool>,
    /// Whether the `dataEncipherment` key-usage extension shall be set.
    pub data_encipherment: Option<bool>,
    /// Whether the `keyAgreement` key-usage extension shall be set.
    pub key_agreement: Option<bool>,
    /// Whether the `KeyCertSign` key-usage extension shall be set.
    pub key_cert_sign: Option<bool>,
    /// Whether the `cRLSign` key-usage extension shall be set.
    pub crl_sign: Option<bool>,
    /// Whether the `encipherOnly` key-usage extension shall be set.
    pub encipher_only: Option<bool>,
    /// Whether the `decipherOnly` key-usage extension shall be set.
    pub decipher_only: Option<bool>,
}

/// The character for one key usage: `1` if it shall be set, `0` if it shall
/// not be set and `X` if it does not matter.
pub open spec fn key_usage_byte(value: Option<bool>) -> u8 {
    match value {
        Some(true) => 49u8,
        Some(false) => 48u8,
        None => 88u8,
    }
}

impl CertificateKeyUsage {
    /// The characters of the key usages, in the order of the fields.
    pub open spec fn spec_string(&self) -> Seq<u8> {
        seq![
            key_usage_byte(self.digital_signature),
            key_usage_byte(self.non_repudiation),
            key_usage_byte(self.key_encipherment),
            key_usage_byte(self.data_encipherment),
            key_usage_byte(self.key_agreement),
            key_usage_byte(self.key_cert_sign),
            key_usage_byte(self.crl_sign),
            key_usage_byte(self.encipher_only),
            key_usage_byte(self.decipher_only),
        ]
    }

    fn to_byte(value: Option<bool>) -> (r: u8)
        ensures
            r == key_usage_byte(value),
    {
        match value {
            Some(true) => 49,
            Some(false) => 48,
            None => 88,
        }
    }

    pub(crate) fn into_string(&self) -> (r: [u8; 9])
        ensures
            r@ == self.spec_string(),
    {
        let r = [
            Self::to_byte(self.digital_signature),
            Self::to_byte(self.non_repudiation),
            Self::to_byte(self.key_encipherment),
            Self::to_byte(self.data_encipherment),
            Self::to_byte(self.key_agreement),
            Self::to_byte(self.key_cert_sign),
            Self::to_byte(self.crl_sign),
            Self::to_byte(self.encipher_only),
            Self::to_byte(self.decipher_only),
        ];
        assert(r@ =~= self.spec_string());
        r
    }
}

impl Field<'_> {
    /// Write the `/V` attribute: the currently selected option of a combo
    /// box or list box, or nothing (`null`).
    pub fn choice_value(&mut self, option: Option<TextStr>) -> (r: &mut Self)
        requires
            0 <= old(self).dict.len < i32::MAX,
        ensures
            match option {
                Some(value) => dict_pair_appended(old(self).dict, r.dict, "V".spec_bytes(), value),
                None => dict_pair_appended(old(self).dict, r.dict, "V".spec_bytes(), Null),
            },
            *final(r.dict.buf) == *final(old(self).dict.buf),
            *final(self) == *final(r),
    {
        match option {
            Some(value) => {
                self.dict.pair(Name("V".as_bytes()), value);
            },
            None => {
                self.dict.pair(Name("V".as_bytes()), Null);
            },
        }
        self
    }

    /// Write the `/DV` attribute: the default selected option of a combo
    /// box or list box, or nothing (`null`).
    pub fn choice_default_value(&mut self, option: Option<TextStr>) -> (r: &mut Self)
        requires
            0 <= old(self).dict.len < i32::MAX,
        ensures
            match option {
                Some(value) => dict_pair_appended(old(self).dict, r.dict, "DV".spec_bytes(), value),
                None => dict_pair_appended(old(self).dict, r.dict, "DV".spec_bytes(), Null),
            },
            *final(r.dict.buf) == *final(old(self).dict.buf),
            *final(self) == *final(r),
    {
        match option {
            Some(value) => {
                self.dict.pair(Name("DV".as_bytes()), value);
            },
            None => {
                self.dict.pair(Name("DV".as_bytes()), Null);
            },
        }
        self
    }
}

impl Field<'_> {
    /// Start writing the `/Opt` array to set the options that shall be
    /// presented to the user.
    pub fn choice_options(&mut self) -> (r: ChoiceOptions<'_>)
        requires
            0 <= old(self).dict.len < i32::MAX,
        ensures
            array_started(
                r.array,
                old(self).dict.buf@ + dict_key_bytes(
                    old(self).dict.settings.pretty,
                    old(self).dict.indent as int,
                    "Opt".spec_bytes(),
                ),
                false,
                old(self).dict.indent,
                old(self).dict.settings,
            ),
            r.array.buf.spec_limits() == old(self).dict.buf.spec_limits().with_name_len("Opt".spec_bytes().len() as int),
            final(self).dict.len == old(self).dict.len + 1,
            final(self).dict.indirect == old(self).dict.indirect,
            final(self).dict.indent == old(self).dict.indent,
            final(self).dict.settings == old(self).dict.settings,
            *final(self).dict.buf == *final(r.array.buf),
            *final(final(self).dict.buf) == *final(old(self).dict.buf),
    {
        ChoiceOptions::start(self.dict.insert(Name("Opt".as_bytes())))
    }
}

/// The bytes of an option with an export value: a two-item array of the
/// export value and the value, added to an array holding `len` items.
pub open spec fn export_item_bytes<T: Primitive>(
    before: Seq<u8>,
    len: int,
    pretty: bool,
    value: T,
    export_value: TextStr,
) -> Seq<u8> {
    let sep = array_separator(len, pretty);
    let open = before + sep + seq![LBRACKET];
    let first = array_item_bytes(open, 0, pretty, export_value);
    sep + seq![LBRACKET] + first + array_item_bytes(open + first, 1, pretty, value)
        + array_close_bytes(false, pretty)
}

/// The bytes of a sequence of options with export values, added to an array
/// holding `len` items.
pub open spec fn export_items_bytes<T: Primitive>(
    before: Seq<u8>,
    len: int,
    pretty: bool,
    values: Seq<(T, TextStr)>,
) -> Seq<u8>
    decreases values.len(),
{
    if values.len() == 0 {
        Seq::empty()
    } else {
        let prev = export_items_bytes(before, len, pretty, values.drop_last());
        prev + export_item_bytes(
            before + prev,
            len + values.len() - 1,
            pretty,
            values.last().0,
            values.last().1,
        )
    }
}

/// Writer for a _choice options array_.
///
/// This struct is created by [`Field::choice_options`].
pub struct ChoiceOptions<'a> {
    /// The options array being written.
    pub array: Array<'a>,
}

impl<'a> ChoiceOptions<'a> {
    /// Start writing the array on an object.
    pub(crate) fn start(obj: Obj<'a>) -> (r: Self)
        ensures
            array_started(r.array, old(obj.buf)@, obj.indirect, obj.indent, obj.settings),
            *final(r.array.buf) == *final(obj.buf),
            r.array.buf.spec_limits() == old(obj.buf).spec_limits(),
    {
        Self { array: obj.array() }
    }

    /// Add an option with the given value.
    pub fn option<T: TextStrLike>(&mut self, value: T) -> (r: &mut Self)
        requires
            0 <= old(self).array.len < i32::MAX,
            value.spec_writable(),
        ensures
            array_item_appended(old(self).array, r.array, value),
            *final(r.array.buf) == *final(old(self).array.buf),
            *final(self) == *final(r),
    {
        self.array.item(value);
        self
    }

    /// Add options with the given values.
    pub fn options<T: TextStrLike + Copy>(&mut self, values: &[T]) -> (r: &mut Self)
        requires
            0 <= old(self).array.len,
            old(self).array.len + values@.len() <= i32::MAX,
            all_writable(values@),
        ensures
            r.array.buf@ == old(self).array.buf@ + array_items_bytes(
                old(self).array.buf@,
                old(self).array.len as int,
                old(self).array.settings.pretty,
                values@,
            ),
            r.array.len == old(self).array.len + values@.len(),
            r.array.indirect == old(self).array.indirect,
            r.array.indent == old(self).array.indent,
            r.array.settings == old(self).array.settings,
            *final(r.array.buf) == *final(old(self).array.buf),
            *final(self) == *final(r),
    {
        self.array.items(values);
        self
    }

    /// Add an option with the given value and export value.
    pub fn export<T: TextStrLike>(&mut self, value: T, export_value: TextStr) -> (r: &mut Self)
        requires
            0 <= old(self).array.len < i32::MAX,
            value.spec_writable(),
        ensures
            r.array.buf@ == old(self).array.buf@ + export_item_bytes(
                old(self).array.buf@,
                old(self).array.len as int,
                old(self).array.settings.pretty,
                value,
                export_value,
            ),
            r.array.len == old(self).array.len + 1,
            r.array.indirect == old(self).array.indirect,
            r.array.indent == old(self).array.indent,
            r.array.settings == old(self).array.settings,
            *final(r.array.buf) == *final(old(self).array.buf),
            *final(self) == *final(r),
    {
        let mut array = self.array.push().array();
        array.item(export_value);
        array.item(value);
        array.finish();
        self
    }

    /// Add options with the given pairs of value and export value.
    pub fn exports<T: TextStrLike + Copy>(&mut self, values: &[(T, TextStr)]) -> (r: &mut Self)
        requires
            0 <= old(self).array.len,
            old(self).array.len + values@.len() <= i32::MAX,
            forall|i: int| 0 <= i < values@.len() ==> (#[trigger] values@[i]).0.spec_writable(),
        ensures
            r.array.buf@ == old(self).array.buf@ + export_items_bytes(
                old(self).array.buf@,
                old(self).array.len as int,
                old(self).array.settings.pretty,
                values@,
            ),
            r.array.len == old(self).array.len + values@.len(),
            r.array.indirect == old(self).array.indirect,
            r.array.indent == old(self).array.indent,
            r.array.settings == old(self).array.settings,
            *final(r.array.buf) == *final(old(self).array.buf),
            *final(self) == *final(r),
    {
        let ghost start = self.array.buf@;
        let mut i: usize = 0;
        while i < values.len()
            invariant
                i <= values@.len(),
                0 <= old(self).array.len,
                old(self).array.len + values@.len() <= i32::MAX,
                forall|j: int| 0 <= j < values@.len() ==> (#[trigger] values@[j]).0.spec_writable(),
                start == old(self).array.buf@,
                self.array.len == old(self).array.len + i,
                self.array.indirect == old(self).array.indirect,
                self.array.indent == old(self).array.indent,
                self.array.settings == old(self).array.settings,
                self.array.buf@ == start + export_items_bytes(
                    start,
                    old(self).array.len as int,
                    self.array.settings.pretty,
                    values@.take(i as int),
                ),
                *final(self.array.buf) == *final(old(self).array.buf),
            decreases values@.len() - i,
        {
            let (value, export_value) = values[i];
            assert(values@.take(i + 1).drop_last() =~= values@.take(i as int));
            assert(values@[i as int].0.spec_writable());
            self.export(value, export_value);
            i = i + 1;
        }
        assert(values@.take(values@.len() as int) =~= values@);
        self
    }

    /// Finish the options array.
    pub fn finish(self)
        requires
            self.array.len >= 0,
        ensures
            final(self.array.buf)@ == old(self.array.buf)@ + array_close_bytes(
                self.array.indirect,
                self.array.settings.pretty,
            ),
            final(self.array.buf).spec_limits() == old(self.array.buf).spec_limits().with_array_len(self.array.len as int),
    {
        self.array.finish();
    }
}

impl SignatureSeedValue<'_> {
    /// Write the `/DigestMethod` attribute to set which digest algorithms
    /// to use while signing. One of these must be used if the digest method
    /// flag is present on the constraint flags. PDF 1.7+.
    pub fn digest_method(&mut self, digest_method: &[SignatureDigestMethod]) -> (r: &mut Self)
        requires
            0 <= old(self).dict.len < i32::MAX,
            digest_method@.len() <= i32::MAX,
        ensures
            dict_grown(
                old(self).dict,
                r.dict,
                dict_tokens_entry_bytes(
                    old(self).dict.buf@,
                    old(self).dict.settings.pretty,
                    old(self).dict.indent as int,
                    "DigestMethod".spec_bytes(),
                    digest_method@.map_values(|m: SignatureDigestMethod| name_token(m.spec_name())),
                ),
                1,
            ),
            *final(r.dict.buf) == *final(old(self).dict.buf),
            *final(self) == *final(r),
    {
        let mut names: Vec<Name> = Vec::new();
        let mut i: usize = 0;
        while i < digest_method.len()
            invariant
                i <= digest_method@.len(),
                names@.len() == i,
                forall|j: int| 0 <= j < i ==> (#[trigger] names@[j]).0@ == digest_method@[j].spec_name(),
            decreases digest_method@.len() - i,
        {
            names.push(digest_method[i].to_name());
            i = i + 1;
        }
        let ghost tokens = digest_method@.map_values(|m: SignatureDigestMethod| name_token(m.spec_name()));
        proof {
            lemma_items_as_tokens(
                old(self).dict.buf@ + dict_key_bytes(
                    old(self).dict.settings.pretty,
                    old(self).dict.indent as int,
                    "DigestMethod".spec_bytes(),
                ) + seq![LBRACKET],
                0,
                old(self).dict.settings.pretty,
                names@,
            );
            assert(names@.map_values(|v: Name| token(v)) =~= tokens);
            assert(all_writable(names@));
        }
        write_items_entry(&mut self.dict, Name("DigestMethod".as_bytes()), names.as_slice());
        self
    }
}

/// The tokens of the key usage strings of a sequence of key usages.
pub open spec fn key_usage_tokens(usages: Seq<CertificateKeyUsage>) -> Seq<(Seq<u8>, bool)> {
    usages.map_values(|u: CertificateKeyUsage| (str_encoding(u.spec_string()), true))
}

/// Write the key usage strings of `usages` as items of an array.
fn push_key_usages(array: &mut Array, usages: &[CertificateKeyUsage])
    requires
        0 <= old(array).len,
        old(array).len + usages@.len() <= i32::MAX,
    ensures
        final(array).buf@ == old(array).buf@ + array_tokens_bytes(
            old(array).buf@,
            old(array).len as int,
            old(array).settings.pretty,
            key_usage_tokens(usages@),
        ),
        final(array).len == old(array).len + usages@.len(),
        final(array).indirect == old(array).indirect,
        final(array).indent == old(array).indent,
        final(array).settings == old(array).settings,
        *final(final(array).buf) == *final(old(array).buf),
{
    let ghost start = array.buf@;
    let ghost pretty = array.settings.pretty;
    let ghost tokens = key_usage_tokens(usages@);
    let mut i: usize = 0;
    while i < usages.len()
        invariant
            i <= usages@.len(),
            0 <= old(array).len,
            old(array).len + usages@.len() <= i32::MAX,
            start == old(array).buf@,
            pretty == old(array).settings.pretty,
            tokens == key_usage_tokens(usages@),
            array.len == old(array).len + i,
            array.indirect == old(array).indirect,
            array.indent == old(array).indent,
            array.settings == old(array).settings,
            array.buf@ == start + array_tokens_bytes(
                start,
                old(array).len as int,
                pretty,
                tokens.take(i as int),
            ),
            *final(array.buf) == *final(old(array).buf),
        decreases usages@.len() - i,
    {
        let s = usages[i].into_string();
        proof {
            lemma_tokens_push(start, old(array).len as int, pretty, tokens.take(i as int), tokens[i as int]);
            assert(tokens.take(i + 1) =~= tokens.take(i as int).push(tokens[i as int]));
        }
        array.item(Str(s.as_slice()));
        i = i + 1;
    }
    assert(tokens.take(usages@.len() as int) =~= tokens);
}

impl<'a, 'b> TypedArray<'a, Dict<'b>> {
    /// Start writing a dictionary as the next item.
    pub fn push(&mut self) -> (r: Dict<'_>)
        requires
            0 <= old(self).array.len < i32::MAX,
        ensures
            r.buf@ == old(self).array.buf@ + array_separator(
                old(self).array.len as int,
                old(self).array.settings.pretty,
            ) + "<<".spec_bytes(),
            r.len == 0,
            r.indirect == false,
            r.indent == crate::object::nested_indent(old(self).array.indent),
            r.settings == old(self).array.settings,
            final(self).array.len == old(self).array.len + 1,
            final(self).array.indirect == old(self).array.indirect,
            final(self).array.indent == old(self).array.indent,
            final(self).array.settings == old(self).array.settings,
            *final(self).array.buf == *final(r.buf),
            *final(final(self).array.buf) == *final(old(self).array.buf),
    {
        self.array.push().dict()
    }
}

impl CertificateSeedValue<'_> {
    /// Start writing the `/SubjectDN` array of dictionaries, each
    /// specifying a Subject Distinguished Name (DN) that shall be
    /// present within the certificate for it to be acceptable for
    /// signing.
    /// Attribute names shall contain characters in the set `a-z`,
    /// `A-Z` `0-9` and `PERIOD`. PDF 1.7+.
    pub fn subject_dn(&mut self) -> (r: TypedArray<'_, Dict<'_>>)
        requires
            0 <= old(self).dict.len < i32::MAX,
        ensures
            array_started(
                r.array,
                old(self).dict.buf@ + dict_key_bytes(
                    old(self).dict.settings.pretty,
                    old(self).dict.indent as int,
                    "SubjectDN".spec_bytes(),
                ),
                false,
                old(self).dict.indent,
                old(self).dict.settings,
            ),
            final(self).dict.len == old(self).dict.len + 1,
            final(self).dict.indirect == old(self).dict.indirect,
            final(self).dict.indent == old(self).dict.indent,
            final(self).dict.settings == old(self).dict.settings,
            *final(self).dict.buf == *final(r.array.buf),
            *final(final(self).dict.buf) == *final(old(self).dict.buf),
            r.array.buf.spec_limits() == old(self).dict.buf.spec_limits().with_name_len("SubjectDN".spec_bytes().len() as int),
    {
        self.dict.insert(Name("SubjectDN".as_bytes())).array().typed()
    }

    /// Write the `/KeyUsage` attribute to set which key-usage extensions
    /// shall be present in the signing certificate. PDF 1.7+.
    pub fn key_usage(&mut self, key_usages: &[CertificateKeyUsage]) -> (r: &mut Self)
        requires
            0 <= old(self).dict.len < i32::MAX,
            key_usages@.len() <= i32::MAX,
        ensures
            dict_grown(
                old(self).dict,
                r.dict,
                dict_tokens_entry_bytes(
                    old(self).dict.buf@,
                    old(self).dict.settings.pretty,
                    old(self).dict.indent as int,
                    "KeyUsage".spec_bytes(),
                    key_usage_tokens(key_usages@),
                ),
                1,
            ),
            *final(r.dict.buf) == *final(old(self).dict.buf),
            *final(self) == *final(r),
    {
        let ghost before = self.dict.buf@;
        let ghost k = dict_key_bytes(self.dict.settings.pretty, self.dict.indent as int, "KeyUsage".spec_bytes());
        let mut array = self.dict.insert(Name("KeyUsage".as_bytes())).array();
        assert(array.buf@ == before + k + seq![LBRACKET]);
        push_key_usages(&mut array, key_usages);
        array.finish();
        assert(self.dict.buf@ =~= before + dict_tokens_entry_bytes(
            before,
            self.dict.settings.pretty,
            self.dict.indent as int,
            "KeyUsage".spec_bytes(),
            key_usage_tokens(key_usages@),
        ));
        self
    }
}

impl<'a> Field<'a> {
    /// Finish writing this field as a widget annotation. This is encouraged
    /// for fields which are non-root and terminal (i.e. they have a parent and
    /// no children).
    ///
    /// While the widget annotation could be a single child to a
    /// terminal field, most readers will not correctly read the form
    /// field, if it's not merged with its annotation.
    pub fn into_annotation(self) -> (r: Annotation<'a>)
        requires
            0 <= self.dict.len < i32::MAX - 1,
        ensures
            r.dict.buf@ == old(self.dict.buf)@ + dict_name_pair_bytes(
                old(self.dict.buf)@,
                self.dict.settings.pretty,
                self.dict.indent as int,
                "Type".spec_bytes(),
                "Annot".spec_bytes(),
            ) + dict_name_pair_bytes(
                old(self.dict.buf)@ + dict_name_pair_bytes(
                    old(self.dict.buf)@,
                    self.dict.settings.pretty,
                    self.dict.indent as int,
                    "Type".spec_bytes(),
                    "Annot".spec_bytes(),
                ),
                self.dict.settings.pretty,
                self.dict.indent as int,
                "Subtype".spec_bytes(),
                AnnotationType::Widget.spec_name(),
            ),
            r.dict.len == self.dict.len + 2,
            r.dict.indirect == self.dict.indirect,
            r.dict.indent == self.dict.indent,
            r.dict.settings == self.dict.settings,
            *final(r.dict.buf) == *final(self.dict.buf),
    {
        let mut dict = self.dict;
        dict.pair(Name("Type".as_bytes()), Name("Annot".as_bytes()));
        let mut annot = Annotation { dict };
        annot.subtype(AnnotationType::Widget);
        annot
    }
}

// ---------------------------------------------------------------------------
// Writers.
// ---------------------------------------------------------------------------

/// Writer for an _interactive forms dictionary_. PDF 1.2+.
///
/// This struct is created by [`Catalog::form`].
pub struct Form<'a> {
    /// The underlying dictionary.
    pub dict: Dict<'a>,
}

impl<'a> Form<'a> {
    /// Start writing the dictionary on an object.
    pub(crate) fn start(obj: Obj<'a>) -> (r: Self)
        ensures
            dict_started(
                r.dict,
                old(obj.buf)@,
                obj.indirect,
                obj.indent,
                obj.settings,
                None,
                None,
            ),
            r.dict.buf.spec_limits() == dict_start_limits(old(obj.buf).spec_limits(), None, None),
            *final(r.dict.buf) == *final(obj.buf),
    {
        Self { dict: start_dict(obj, None, None) }
    }

    /// Write the `/Fields` attribute to reference the root [form fields](Field)
    /// (those who have no immediate parent) of this document.
    pub fn fields(&mut self, fields: &[Ref]) -> (r: &mut Self)
        requires
            0 <= old(self).dict.len < i32::MAX,
            fields@.len() <= i32::MAX,
        ensures
            dict_items_appended(old(self).dict, r.dict, "Fields".spec_bytes(), fields@),
            *final(r.dict.buf) == *final(old(self).dict.buf),
            *final(self) == *final(r),
    {
        write_items_entry(&mut self.dict, Name("Fields".as_bytes()), fields);
        self
    }

    /// Write the `/SigFlags` attribute to set various document-level
    /// characteristics related to signature fields. PDF 1.3+.
    ///
    /// The flags are given by their bits.
    pub fn sig_flags(&mut self, flags: u32) -> (r: &mut Self)
        requires
            0 <= old(self).dict.len < i32::MAX,
            flags as i32 != i32::MIN,
        ensures
            dict_pair_appended(old(self).dict, r.dict, "SigFlags".spec_bytes(), flags as i32),
            *final(r.dict.buf) == *final(old(self).dict.buf),
            *final(self) == *final(r),
    {
        self.dict.pair(Name("SigFlags".as_bytes()), flags as i32);
        self
    }

    /// Write the `/CO` attribute to set the field dictionaries with calculation
    /// actions, defining the calculation order in which their values will be
    /// recalculated when the value of any field changes. PDF 1.3+.
    pub fn calculation_order(&mut self, actions: &[Ref]) -> (r: &mut Self)
        requires
            0 <= old(self).dict.len < i32::MAX,
            actions@.len() <= i32::MAX,
        ensures
            dict_items_appended(old(self).dict, r.dict, "CO".spec_bytes(), actions@),
            *final(r.dict.buf) == *final(old(self).dict.buf),
            *final(self) == *final(r),
    {
        write_items_entry(&mut self.dict, Name("CO".as_bytes()), actions);
        self
    }

    /// Start writing the `/DR` attribute to set the default resources
    /// that shall be used by form field appearance streams. At a minimum, this
    /// dictionary shall contain a font entry specifying the resource name and
    /// font dictionary of the default font for displaying text.
    pub fn default_resources(&mut self) -> (r: Resources<'_>)
        requires
            0 <= old(self).dict.len < i32::MAX,
        ensures
            dict_started(
                r.dict,
                old(self).dict.buf@ + dict_key_bytes(
                    old(self).dict.settings.pretty,
                    old(self).dict.indent as int,
                    "DR".spec_bytes(),
                ),
                false,
                old(self).dict.indent,
                old(self).dict.settings,
                None,
                None,
            ),
            r.dict.buf.spec_limits() == dict_start_limits(
                old(self).dict.buf.spec_limits().with_name_len("DR".spec_bytes().len() as int),
                None,
                None,
            ),
            final(self).dict.len == old(self).dict.len + 1,
            final(self).dict.indirect == old(self).dict.indirect,
            final(self).dict.indent == old(self).dict.indent,
            final(self).dict.settings == old(self).dict.settings,
            *final(self).dict.buf == *final(r.dict.buf),
            *final(final(self).dict.buf) == *final(old(self).dict.buf),
    {
        Resources::start(self.dict.insert(Name("DR".as_bytes())))
    }

    /// Write the document-wide default value for the `/DA` attribute of
    /// fields containing variable text. See
    /// [`Field::vartext_default_appearance`].
    pub fn default_appearance(&mut self, default: Str) -> (r: &mut Self)
        requires
            0 <= old(self).dict.len < i32::MAX,
        ensures
            dict_pair_appended(old(self).dict, r.dict, "DA".spec_bytes(), default),
            *final(r.dict.buf) == *final(old(self).dict.buf),
            *final(self) == *final(r),
    {
        self.dict.pair(Name("DA".as_bytes()), default);
        self
    }

    /// Write the document-wide default value for the `/Q` attribute of
    /// fields containing variable text. See [`Field::vartext_quadding`].
    pub fn quadding(&mut self, default: Quadding) -> (r: &mut Self)
        requires
            0 <= old(self).dict.len < i32::MAX,
        ensures
            dict_pair_appended(old(self).dict, r.dict, "Q".spec_bytes(), default.spec_int()),
            *final(r.dict.buf) == *final(old(self).dict.buf),
            *final(self) == *final(r),
    {
        self.dict.pair(Name("Q".as_bytes()), default.to_int());
        self
    }

    /// Finish writing the dictionary.
    pub fn finish(self)
        requires
            self.dict.len >= 0,
            self.dict.indent >= 2,
        ensures
            final(self.dict.buf)@ == old(self.dict.buf)@ + dict_close_bytes(
                self.dict.len as int,
                self.dict.settings.pretty,
                self.dict.indent as int,
                self.dict.indirect,
            ),
            final(self.dict.buf).spec_limits() == old(self.dict.buf).spec_limits().with_dict_entries(self.dict.len as int),
    {
        self.dict.finish();
    }
}

/// Writer for an _form field dictionary_.
///
/// This struct is created by [`Chunk::form_field`].
pub struct Field<'a> {
    /// The underlying dictionary.
    pub dict: Dict<'a>,
}

impl<'a> Field<'a> {
    /// Start writing the dictionary on an object.
    pub(crate) fn start(obj: Obj<'a>) -> (r: Self)
        ensures
            dict_started(
                r.dict,
                old(obj.buf)@,
                obj.indirect,
                obj.indent,
                obj.settings,
                None,
                None,
            ),
            r.dict.buf.spec_limits() == dict_start_limits(old(obj.buf).spec_limits(), None, None),
            *final(r.dict.buf) == *final(obj.buf),
    {
        Self { dict: start_dict(obj, None, None) }
    }

    /// Write the `/FT` attribute to set the type of this field.
    pub fn field_type(&mut self, typ: FieldType) -> (r: &mut Self)
        requires
            0 <= old(self).dict.len < i32::MAX,
        ensures
            dict_name_pair_appended(old(self).dict, r.dict, "FT".spec_bytes(), typ.spec_name()),
            *final(r.dict.buf) == *final(old(self).dict.buf),
            *final(self) == *final(r),
    {
        self.dict.pair(Name("FT".as_bytes()), typ.to_name());
        self
    }

    /// Write the `/Parent` attribute to set the immediate parent of this
    /// field.
    pub fn parent(&mut self, id: Ref) -> (r: &mut Self)
        requires
            0 <= old(self).dict.len < i32::MAX,
        ensures
            dict_pair_appended(old(self).dict, r.dict, "Parent".spec_bytes(), id),
            *final(r.dict.buf) == *final(old(self).dict.buf),
            *final(self) == *final(r),
    {
        self.dict.pair(Name("Parent".as_bytes()), id);
        self
    }

    /// Write the `/Kids` attribute to set the immediate children of this field.
    /// These references shall refer to other [fields][Field], or
    /// [widget](crate::types::AnnotationType::Widget) [annotations](Annotation).
    pub fn children(&mut self, children: &[Ref]) -> (r: &mut Self)
        requires
            0 <= old(self).dict.len < i32::MAX,
            children@.len() <= i32::MAX,
        ensures
            dict_items_appended(old(self).dict, r.dict, "Kids".spec_bytes(), children@),
            *final(r.dict.buf) == *final(old(self).dict.buf),
            *final(self) == *final(r),
    {
        write_items_entry(&mut self.dict, Name("Kids".as_bytes()), children);
        self
    }

    /// Write the `/T` attribute to set the partial field name.
    ///
    /// The fully qualified field name of a field is a path along its
    /// ancestor's partial field names separated by periods `.`. Therefore, a
    /// partial field name may not contain a period `.`.
    ///
    /// If two fields have the same parent and no partial field name, then they
    /// refer to two representations of the same field and should only differ
    /// in properties that specify their visual appearance. In particular, they
    /// should have the same `/FT`, `/V` and `/DV` attribute values.
    pub fn partial_name(&mut self, name: TextStr) -> (r: &mut Self)
        requires
            0 <= old(self).dict.len < i32::MAX,
        ensures
            dict_pair_appended(old(self).dict, r.dict, "T".spec_bytes(), name),
            *final(r.dict.buf) == *final(old(self).dict.buf),
            *final(self) == *final(r),
    {
        self.dict.pair(Name("T".as_bytes()), name);
        self
    }

    /// Write the `/TU` attribute to set the alternative field name. This
    /// field name is used in place of the actual field name whenever the field
    /// shall be identified in the user interface (such as in error or status
    /// messages). This text is also useful when extracting the document's
    /// contents in support of accessibility to users with disabilities or for
    /// other purposes. PDF 1.3+.
    pub fn alternate_name<T: TextStrLike>(&mut self, alternate: T) -> (r: &mut Self)
        requires
            0 <= old(self).dict.len < i32::MAX,
            alternate.spec_writable(),
        ensures
            dict_pair_appended(old(self).dict, r.dict, "TU".spec_bytes(), alternate),
            *final(r.dict.buf) == *final(old(self).dict.buf),
            *final(self) == *final(r),
    {
        self.dict.pair(Name("TU".as_bytes()), alternate);
        self
    }

    /// Write the `/TM` attribute to set the mapping field name. This
    /// name shall be used when exporting interactive form field data from the
    /// document.
    pub fn mapping_name(&mut self, name: TextStr) -> (r: &mut Self)
        requires
            0 <= old(self).dict.len < i32::MAX,
        ensures
            dict_pair_appended(old(self).dict, r.dict, "TM".spec_bytes(), name),
            *final(r.dict.buf) == *final(old(self).dict.buf),
            *final(self) == *final(r),
    {
        self.dict.pair(Name("TM".as_bytes()), name);
        self
    }

    /// Write the `/Ff` attribute to set various characteristics of this
    /// field.
    ///
    /// The flags are given by their bits.
    pub fn field_flags(&mut self, flags: u32) -> (r: &mut Self)
        requires
            0 <= old(self).dict.len < i32::MAX,
            flags as i32 != i32::MIN,
        ensures
            dict_pair_appended(old(self).dict, r.dict, "Ff".spec_bytes(), flags as i32),
            *final(r.dict.buf) == *final(old(self).dict.buf),
            *final(self) == *final(r),
    {
        self.dict.pair(Name("Ff".as_bytes()), flags as i32);
        self
    }

    /// Start writing the `/AA` dictionary to set the field's response to
    /// various trigger events.
    ///
    /// Note that this attribute is forbidden in PDF/A.
    pub fn additional_actions(&mut self) -> (r: AdditionalActions<'_>)
        requires
            0 <= old(self).dict.len < i32::MAX,
        ensures
            dict_started(
                r.dict,
                old(self).dict.buf@ + dict_key_bytes(
                    old(self).dict.settings.pretty,
                    old(self).dict.indent as int,
                    "AA".spec_bytes(),
                ),
                false,
                old(self).dict.indent,
                old(self).dict.settings,
                None,
                None,
            ),
            r.dict.buf.spec_limits() == dict_start_limits(
                old(self).dict.buf.spec_limits().with_name_len("AA".spec_bytes().len() as int),
                None,
                None,
            ),
            final(self).dict.len == old(self).dict.len + 1,
            final(self).dict.indirect == old(self).dict.indirect,
            final(self).dict.indent == old(self).dict.indent,
            final(self).dict.settings == old(self).dict.settings,
            *final(self).dict.buf == *final(r.dict.buf),
            *final(final(self).dict.buf) == *final(old(self).dict.buf),
    {
        AdditionalActions::start(self.dict.insert(Name("AA".as_bytes())))
    }

    /// Write the `/Opt` array to set the export values of children of this
    /// field. Only permissible on checkbox fields, or radio button fields.
    /// PDF 1.4+.
    pub fn button_options(&mut self, options: &[TextStr<'_>]) -> (r: &mut Self)
        requires
            0 <= old(self).dict.len < i32::MAX,
            options@.len() <= i32::MAX,
        ensures
            dict_items_appended(old(self).dict, r.dict, "Opt".spec_bytes(), options@),
            *final(r.dict.buf) == *final(old(self).dict.buf),
            *final(self) == *final(r),
    {
        write_items_entry(&mut self.dict, Name("Opt".as_bytes()), options);
        self
    }

    /// Write the `/V` attribute to set the state of this check box field. The
    /// state corresponds to an appearance stream in the [appearance
    /// dictionary](AppearanceCharacteristics) of this field's widget
    /// [annotation](Annotation). Only permissible on check box fields.
    pub fn checkbox_value(&mut self, state: CheckBoxState) -> (r: &mut Self)
        requires
            0 <= old(self).dict.len < i32::MAX,
        ensures
            dict_name_pair_appended(old(self).dict, r.dict, "V".spec_bytes(), state.spec_name()),
            *final(r.dict.buf) == *final(old(self).dict.buf),
            *final(self) == *final(r),
    {
        self.dict.pair(Name("V".as_bytes()), state.to_name());
        self
    }

    /// Write the `/DV` attribute to set the default state of this check box
    /// field. The state corresponds to an appearance stream in the [appearance
    /// dictionary](AppearanceCharacteristics) of this field's widget
    /// [annotation](Annotation). Only permissible on check box fields.
    pub fn checkbox_default_value(&mut self, state: CheckBoxState) -> (r: &mut Self)
        requires
            0 <= old(self).dict.len < i32::MAX,
        ensures
            dict_name_pair_appended(old(self).dict, r.dict, "DV".spec_bytes(), state.spec_name()),
            *final(r.dict.buf) == *final(old(self).dict.buf),
            *final(self) == *final(r),
    {
        self.dict.pair(Name("DV".as_bytes()), state.to_name());
        self
    }

    /// Write the `/V` attribute to set the state of this radio button field.
    /// The state corresponds to an appearance stream in the
    /// [appearance subdictionary](Appearance) of this field's widget
    /// [annotation](Annotation) and is either a custom name unique for
    /// all unique fields, or `/Off`. Only permissible on radio button fields.
    pub fn radio_value(&mut self, state: Name) -> (r: &mut Self)
        requires
            0 <= old(self).dict.len < i32::MAX,
        ensures
            dict_pair_appended(old(self).dict, r.dict, "V".spec_bytes(), state),
            *final(r.dict.buf) == *final(old(self).dict.buf),
            *final(self) == *final(r),
    {
        self.dict.pair(Name("V".as_bytes()), state);
        self
    }

    /// Write the `/DV` attribute to set the default state of this radio button
    /// field. The state corresponds to an appearance stream in the
    /// [appearance subdictionary](Appearance) of this field's widget
    /// [annotation](Annotation) and is either a custom name unique for
    /// all unique fields, or `/Off`. Only permissible on radio button fields.
    pub fn radio_default_value(&mut self, state: Name) -> (r: &mut Self)
        requires
            0 <= old(self).dict.len < i32::MAX,
        ensures
            dict_pair_appended(old(self).dict, r.dict, "DV".spec_bytes(), state),
            *final(r.dict.buf) == *final(old(self).dict.buf),
            *final(self) == *final(r),
    {
        self.dict.pair(Name("DV".as_bytes()), state);
        self
    }

    /// Write the `/MaxLen` attribute to set the maximum length of the fields
    /// text in characters. Only permissible on text fields.
    ///
    /// The definition of a character depends on the encoding of the content of
    /// `/V`. Which is either one byte for PDFDocEncoding or 2 for UTF16-BE.
    pub fn text_max_len(&mut self, len: i32) -> (r: &mut Self)
        requires
            0 <= old(self).dict.len < i32::MAX,
            len != i32::MIN,
        ensures
            dict_pair_appended(old(self).dict, r.dict, "MaxLen".spec_bytes(), len),
            *final(r.dict.buf) == *final(old(self).dict.buf),
            *final(self) == *final(r),
    {
        self.dict.pair(Name("MaxLen".as_bytes()), len);
        self
    }

    /// Write the `/V` attribute to set the value of this text field.
    /// Only permissible on text fields.
    pub fn text_value<T: TextStrLike>(&mut self, value: T) -> (r: &mut Self)
        requires
            0 <= old(self).dict.len < i32::MAX,
            value.spec_writable(),
        ensures
            dict_pair_appended(old(self).dict, r.dict, "V".spec_bytes(), value),
            *final(r.dict.buf) == *final(old(self).dict.buf),
            *final(self) == *final(r),
    {
        self.dict.pair(Name("V".as_bytes()), value);
        self
    }

    /// Start writing the `/DV` attribute to set the default value of this text
    /// field. Only permissible on text fields.
    pub fn text_default_value<T: TextStrLike>(&mut self, value: T) -> (r: &mut Self)
        requires
            0 <= old(self).dict.len < i32::MAX,
            value.spec_writable(),
        ensures
            dict_pair_appended(old(self).dict, r.dict, "DV".spec_bytes(), value),
            *final(r.dict.buf) == *final(old(self).dict.buf),
            *final(self) == *final(r),
    {
        self.dict.pair(Name("DV".as_bytes()), value);
        self
    }

    /// Write the `/DA` attribute containing a sequence of valid page-content
    /// graphics or text state operators that define such properties as the
    /// field's text size and colour. Only permissible on fields containing
    /// variable text.
    pub fn vartext_default_appearance(&mut self, appearance: Str) -> (r: &mut Self)
        requires
            0 <= old(self).dict.len < i32::MAX,
        ensures
            dict_pair_appended(old(self).dict, r.dict, "DA".spec_bytes(), appearance),
            *final(r.dict.buf) == *final(old(self).dict.buf),
            *final(self) == *final(r),
    {
        self.dict.pair(Name("DA".as_bytes()), appearance);
        self
    }

    /// Write the `/Q` attribute to set the quadding (justification) that shall
    /// be used in displaying the text. Only permissible on fields containing
    /// variable text.
    pub fn vartext_quadding(&mut self, quadding: Quadding) -> (r: &mut Self)
        requires
            0 <= old(self).dict.len < i32::MAX,
        ensures
            dict_pair_appended(old(self).dict, r.dict, "Q".spec_bytes(), quadding.spec_int()),
            *final(r.dict.buf) == *final(old(self).dict.buf),
            *final(self) == *final(r),
    {
        self.dict.pair(Name("Q".as_bytes()), quadding.to_int());
        self
    }

    /// Write the `/DS` attribute to set the default style string. Only
    /// permissible on fields containing variable text. PDF 1.5+.
    pub fn vartext_default_style(&mut self, style: TextStr) -> (r: &mut Self)
        requires
            0 <= old(self).dict.len < i32::MAX,
        ensures
            dict_pair_appended(old(self).dict, r.dict, "DS".spec_bytes(), style),
            *final(r.dict.buf) == *final(old(self).dict.buf),
            *final(self) == *final(r),
    {
        self.dict.pair(Name("DS".as_bytes()), style);
        self
    }

    /// Write the `/RV` attribute to set the value of this variable text field.
    /// Only permissible on fields containing variable text. PDF 1.5+.
    ///
    /// Note that this is a Rich Text string, so you can use some basic XHTML
    /// and XFA attributes. That also means that untrusted input must be
    /// properly escaped.
    pub fn vartext_rich_value<T: TextStrLike>(&mut self, value: T) -> (r: &mut Self)
        requires
            0 <= old(self).dict.len < i32::MAX,
            value.spec_writable(),
        ensures
            dict_pair_appended(old(self).dict, r.dict, "RV".spec_bytes(), value),
            *final(r.dict.buf) == *final(old(self).dict.buf),
            *final(self) == *final(r),
    {
        self.dict.pair(Name("RV".as_bytes()), value);
        self
    }

    /// Write the `/TI` attribute to set the index in the
    /// [`Field::choice_options`] array of the first visible option for
    /// scrollable lists.
    pub fn choice_top_index(&mut self, index: i32) -> (r: &mut Self)
        requires
            0 <= old(self).dict.len < i32::MAX,
            index != i32::MIN,
        ensures
            dict_pair_appended(old(self).dict, r.dict, "TI".spec_bytes(), index),
            *final(r.dict.buf) == *final(old(self).dict.buf),
            *final(self) == *final(r),
    {
        self.dict.pair(Name("TI".as_bytes()), index);
        self
    }

    /// Write the `/I` array to set the indices of the currently selected
    /// options. The integers in this array must be sorted in ascending order
    /// and correspond to 0-based indices in the [`Field::choice_options`]
    /// array.
    ///
    /// This entry shall be used for choice fields which allow multiple
    /// selections ([`FieldFlags::MULTI_SELECT`]). This means when two or more
    /// elements in the [`Field::choice_options`] array have different names
    /// but export the same value or when the value fo the choice field is an
    /// array. This entry should not be used for choice fields that do not allow
    /// multiple selections. PDF 1.4+.
    pub fn choice_indices(&mut self, indices: &[i32]) -> (r: &mut Self)
        requires
            0 <= old(self).dict.len < i32::MAX,
            indices@.len() <= i32::MAX,
            forall|i: int| 0 <= i < indices@.len() ==> indices@[i] != i32::MIN,
        ensures
            dict_items_appended(old(self).dict, r.dict, "I".spec_bytes(), indices@),
            *final(r.dict.buf) == *final(old(self).dict.buf),
            *final(self) == *final(r),
    {
        write_items_entry(&mut self.dict, Name("I".as_bytes()), indices);
        self
    }

    /// Write the `/V` attribute to set the currently selected values of this
    /// choice field. See also [`Self::choice_value`], for a single or no value.
    /// Only permissible on choice fields.
    pub fn choice_values(&mut self, options: &[TextStr<'_>]) -> (r: &mut Self)
        requires
            0 <= old(self).dict.len < i32::MAX,
            options@.len() <= i32::MAX,
        ensures
            dict_items_appended(old(self).dict, r.dict, "V".spec_bytes(), options@),
            *final(r.dict.buf) == *final(old(self).dict.buf),
            *final(self) == *final(r),
    {
        write_items_entry(&mut self.dict, Name("V".as_bytes()), options);
        self
    }

    /// Write the `/DV` attribute to set the default selected values of this
    /// choice field. See also [`Self::choice_default_value`], for a single or
    /// no value. Only permissible on choice fields.
    pub fn choice_default_values(&mut self, options: &[TextStr<'_>]) -> (r: &mut Self)
        requires
            0 <= old(self).dict.len < i32::MAX,
            options@.len() <= i32::MAX,
        ensures
            dict_items_appended(old(self).dict, r.dict, "DV".spec_bytes(), options@),
            *final(r.dict.buf) == *final(old(self).dict.buf),
            *final(self) == *final(r),
    {
        write_items_entry(&mut self.dict, Name("DV".as_bytes()), options);
        self
    }

    /// Write the `/Lock` attribute which points to a [signature field lock
    /// dictionary](SignatureFieldLock), containing a set of form fields that shall
    /// be locked when this signature field is signed. PDF 1.5+.
    pub fn signature_field_lock(&mut self, field_lock: Ref) -> (r: &mut Self)
        requires
            0 <= old(self).dict.len < i32::MAX,
        ensures
            dict_pair_appended(old(self).dict, r.dict, "Lock".spec_bytes(), field_lock),
            *final(r.dict.buf) == *final(old(self).dict.buf),
            *final(self) == *final(r),
    {
        self.dict.pair(Name("Lock".as_bytes()), field_lock);
        self
    }

    /// Write the `/SV` attribute which points to a [seed value
    /// dictionary](SignatureSeedValue), containing constraints for the
    /// properties of a signature that is applied to this field. PDF 1.5+.
    pub fn signature_seed_value(&mut self, seed_value: Ref) -> (r: &mut Self)
        requires
            0 <= old(self).dict.len < i32::MAX,
        ensures
            dict_pair_appended(old(self).dict, r.dict, "SV".spec_bytes(), seed_value),
            *final(r.dict.buf) == *final(old(self).dict.buf),
            *final(self) == *final(r),
    {
        self.dict.pair(Name("SV".as_bytes()), seed_value);
        self
    }

    /// Finish writing the dictionary.
    pub fn finish(self)
        requires
            self.dict.len >= 0,
            self.dict.indent >= 2,
        ensures
            final(self.dict.buf)@ == old(self.dict.buf)@ + dict_close_bytes(
                self.dict.len as int,
                self.dict.settings.pretty,
                self.dict.indent as int,
                self.dict.indirect,
            ),
            final(self.dict.buf).spec_limits() == old(self.dict.buf).spec_limits().with_dict_entries(self.dict.len as int),
    {
        self.dict.finish();
    }
}

/// Writer for a _signature field lock dictionary_.
///
/// This struct is created by [`Chunk::signature_field_lock`].
pub struct SignatureFieldLock<'a> {
    /// The underlying dictionary.
    pub dict: Dict<'a>,
}

impl<'a> SignatureFieldLock<'a> {
    /// Start writing the dictionary on an object.
    pub(crate) fn start(obj: Obj<'a>) -> (r: Self)
        ensures
            dict_started(
                r.dict,
                old(obj.buf)@,
                obj.indirect,
                obj.indent,
                obj.settings,
                Some("SigFieldLock".spec_bytes()),
                None,
            ),
            r.dict.buf.spec_limits() == dict_start_limits(old(obj.buf).spec_limits(), Some("SigFieldLock".spec_bytes()), None),
            *final(r.dict.buf) == *final(obj.buf),
    {
        Self { dict: start_dict(obj, Some("SigFieldLock"), None) }
    }

    /// Write the `/Action` attribute which, in conjunction with
    /// the [`/Fields`](SignatureFieldLock::fields) array, indicates the
    /// set of fields that should be locked when the signature field is signed.
    /// Required.
    pub fn action(&mut self, action: SignatureLockAction) -> (r: &mut Self)
        requires
            0 <= old(self).dict.len < i32::MAX,
        ensures
            dict_name_pair_appended(old(self).dict, r.dict, "Action".spec_bytes(), action.spec_name()),
            *final(r.dict.buf) == *final(old(self).dict.buf),
            *final(self) == *final(r),
    {
        self.dict.pair(Name("Action".as_bytes()), action.to_name());
        self
    }

    /// Write the `/Fields` array which contains field names,
    /// indicating the set of fields that should be locked when the
    /// signature field is signed.
    /// The behavior of this array depends on the value of
    /// the [`/Action`](SignatureFieldLock::action) attribute.
    /// Required if action is not [`SignatureLockAction::All`].
    pub fn fields(&mut self, fields: &[TextStr<'_>]) -> (r: &mut Self)
        requires
            0 <= old(self).dict.len < i32::MAX,
            fields@.len() <= i32::MAX,
        ensures
            dict_items_appended(old(self).dict, r.dict, "Fields".spec_bytes(), fields@),
            *final(r.dict.buf) == *final(old(self).dict.buf),
            *final(self) == *final(r),
    {
        write_items_entry(&mut self.dict, Name("Fields".as_bytes()), fields);
        self
    }

    /// Write the `/P` attribute to set the changes allowed without
    /// invalidating the signature.
    pub fn access_permissions(&mut self, p: AccessPermissions) -> (r: &mut Self)
        requires
            0 <= old(self).dict.len < i32::MAX,
        ensures
            dict_pair_appended(old(self).dict, r.dict, "P".spec_bytes(), p.spec_int()),
            *final(r.dict.buf) == *final(old(self).dict.buf),
            *final(self) == *final(r),
    {
        self.dict.pair(Name("P".as_bytes()), p.to_int());
        self
    }

    /// Finish writing the dictionary.
    pub fn finish(self)
        requires
            self.dict.len >= 0,
            self.dict.indent >= 2,
        ensures
            final(self.dict.buf)@ == old(self.dict.buf)@ + dict_close_bytes(
                self.dict.len as int,
                self.dict.settings.pretty,
                self.dict.indent as int,
                self.dict.indirect,
            ),
            final(self.dict.buf).spec_limits() == old(self.dict.buf).spec_limits().with_dict_entries(self.dict.len as int),
    {
        self.dict.finish();
    }
}

/// Writer for a _seed value dictionary_.
///
/// This struct is created by [`Chunk::signature_seed_value`].
pub struct SignatureSeedValue<'a> {
    /// The underlying dictionary.
    pub dict: Dict<'a>,
}

impl<'a> SignatureSeedValue<'a> {
    /// Start writing the dictionary on an object.
    pub(crate) fn start(obj: Obj<'a>) -> (r: Self)
        ensures
            dict_started(
                r.dict,
                old(obj.buf)@,
                obj.indirect,
                obj.indent,
                obj.settings,
                Some("SV".spec_bytes()),
                None,
            ),
            r.dict.buf.spec_limits() == dict_start_limits(old(obj.buf).spec_limits(), Some("SV".spec_bytes()), None),
            *final(r.dict.buf) == *final(obj.buf),
    {
        Self { dict: start_dict(obj, Some("SV"), None) }
    }

    /// Write the `/Ff` attribute to set which entries of this signature
    /// seed value dictionary are mandatory constraints.
    ///
    /// The flags are given by their bits.
    pub fn constraint_flags(&mut self, flags: u32) -> (r: &mut Self)
        requires
            0 <= old(self).dict.len < i32::MAX,
            flags as i32 != i32::MIN,
        ensures
            dict_pair_appended(old(self).dict, r.dict, "Ff".spec_bytes(), flags as i32),
            *final(r.dict.buf) == *final(old(self).dict.buf),
            *final(self) == *final(r),
    {
        self.dict.pair(Name("Ff".as_bytes()), flags as i32);
        self
    }

    /// Write the `/Filter` attribute to set which signature handler
    /// shall be used to sign the signature field.
    /// If [`SignatureSeedValueFlags::FILTER`] is present on
    /// [constraint flags](SignatureSeedValue::constraint_flags),
    /// this is a required constraint.
    pub fn filter(&mut self, signature_handler: Name) -> (r: &mut Self)
        requires
            0 <= old(self).dict.len < i32::MAX,
        ensures
            dict_pair_appended(old(self).dict, r.dict, "Filter".spec_bytes(), signature_handler),
            *final(r.dict.buf) == *final(old(self).dict.buf),
            *final(self) == *final(r),
    {
        self.dict.pair(Name("Filter".as_bytes()), signature_handler);
        self
    }

    /// Write the `/Filter` attribute to set which encodings
    /// to use when signing. One of these must be used if
    /// [`SignatureSeedValueFlags::SUB_FILTER`] is present on
    /// [constraint flags](SignatureSeedValue::constraint_flags).
    pub fn sub_filter(&mut self, encodings: &[Name<'_>]) -> (r: &mut Self)
        requires
            0 <= old(self).dict.len < i32::MAX,
            encodings@.len() <= i32::MAX,
        ensures
            dict_items_appended(old(self).dict, r.dict, "SubFilter".spec_bytes(), encodings@),
            *final(r.dict.buf) == *final(old(self).dict.buf),
            *final(self) == *final(r),
    {
        write_items_entry(&mut self.dict, Name("SubFilter".as_bytes()), encodings);
        self
    }

    /// Write the `/V` attribute to set the minimum required capability
    /// of the signature field seed value dictionary parser.
    /// If [`SignatureSeedValueFlags::VERSION`] is present on
    /// [constraint flags](SignatureSeedValue::constraint_flags),
    /// this is a required constraint.
    pub fn version(&mut self, version: SeedValueParserVersion) -> (r: &mut Self)
        requires
            0 <= old(self).dict.len < i32::MAX,
        ensures
            dict_pair_appended(old(self).dict, r.dict, "V".spec_bytes(), version.spec_int()),
            *final(r.dict.buf) == *final(old(self).dict.buf),
            *final(self) == *final(r),
    {
        self.dict.pair(Name("V".as_bytes()), version.to_int());
        self
    }

    /// Start writing the `/Cert` dictionary to set various characteristics
    /// of the certificate that shall be used when signing.
    pub fn certificate(&mut self) -> (r: CertificateSeedValue<'_>)
        requires
            0 <= old(self).dict.len < i32::MAX,
        ensures
            dict_started(
                r.dict,
                old(self).dict.buf@ + dict_key_bytes(
                    old(self).dict.settings.pretty,
                    old(self).dict.indent as int,
                    "Cert".spec_bytes(),
                ),
                false,
                old(self).dict.indent,
                old(self).dict.settings,
                Some("SVCert".spec_bytes()),
                None,
            ),
            r.dict.buf.spec_limits() == dict_start_limits(
                old(self).dict.buf.spec_limits().with_name_len("Cert".spec_bytes().len() as int),
                Some("SVCert".spec_bytes()),
                None,
            ),
            final(self).dict.len == old(self).dict.len + 1,
            final(self).dict.indirect == old(self).dict.indirect,
            final(self).dict.indent == old(self).dict.indent,
            final(self).dict.settings == old(self).dict.settings,
            *final(self).dict.buf == *final(r.dict.buf),
            *final(final(self).dict.buf) == *final(old(self).dict.buf),
    {
        CertificateSeedValue::start(self.dict.insert(Name("Cert".as_bytes())))
    }

    /// Write the `/Reasons` attribute to set the possible reasons
    /// for signing a document.
    /// If [`SignatureSeedValueFlags::REASONS`] is present on
    /// [constraint flags](SignatureSeedValue::constraint_flags),
    /// one of these reasons must be used when signing.
    pub fn reasons(&mut self, reasons: &[TextStr<'_>]) -> (r: &mut Self)
        requires
            0 <= old(self).dict.len < i32::MAX,
            reasons@.len() <= i32::MAX,
        ensures
            dict_items_appended(old(self).dict, r.dict, "Reasons".spec_bytes(), reasons@),
            *final(r.dict.buf) == *final(old(self).dict.buf),
            *final(self) == *final(r),
    {
        write_items_entry(&mut self.dict, Name("Reasons".as_bytes()), reasons);
        self
    }

    /// Start writing the `/MDP` dictionary to set which changes
    /// to the document will invalidate the signature. PDF 1.6+.
    pub fn modification_detection_prevention(&mut self) -> (r: SignatureModificationDetectionPrevention<'_>)
        requires
            0 <= old(self).dict.len < i32::MAX,
        ensures
            dict_started(
                r.dict,
                old(self).dict.buf@ + dict_key_bytes(
                    old(self).dict.settings.pretty,
                    old(self).dict.indent as int,
                    "MDP".spec_bytes(),
                ),
                false,
                old(self).dict.indent,
                old(self).dict.settings,
                None,
                None,
            ),
            r.dict.buf.spec_limits() == dict_start_limits(
                old(self).dict.buf.spec_limits().with_name_len("MDP".spec_bytes().len() as int),
                None,
                None,
            ),
            final(self).dict.len == old(self).dict.len + 1,
            final(self).dict.indirect == old(self).dict.indirect,
            final(self).dict.indent == old(self).dict.indent,
            final(self).dict.settings == old(self).dict.settings,
            *final(self).dict.buf == *final(r.dict.buf),
            *final(final(self).dict.buf) == *final(old(self).dict.buf),
    {
        SignatureModificationDetectionPrevention::start(self.dict.insert(Name("MDP".as_bytes())))
    }

    /// Start writing the `/TimeStamp` dictionary to set a
    /// timestamping server and whether a timestamp is required
    /// while signing. PDF 1.6+.
    pub fn timestamp(&mut self) -> (r: SignatureTimeStamp<'_>)
        requires
            0 <= old(self).dict.len < i32::MAX,
        ensures
            dict_started(
                r.dict,
                old(self).dict.buf@ + dict_key_bytes(
                    old(self).dict.settings.pretty,
                    old(self).dict.indent as int,
                    "TimeStamp".spec_bytes(),
                ),
                false,
                old(self).dict.indent,
                old(self).dict.settings,
                None,
                None,
            ),
            r.dict.buf.spec_limits() == dict_start_limits(
                old(self).dict.buf.spec_limits().with_name_len("TimeStamp".spec_bytes().len() as int),
                None,
                None,
            ),
            final(self).dict.len == old(self).dict.len + 1,
            final(self).dict.indirect == old(self).dict.indirect,
            final(self).dict.indent == old(self).dict.indent,
            final(self).dict.settings == old(self).dict.settings,
            *final(self).dict.buf == *final(r.dict.buf),
            *final(final(self).dict.buf) == *final(old(self).dict.buf),
    {
        SignatureTimeStamp::start(self.dict.insert(Name("TimeStamp".as_bytes())))
    }

    /// Write the `/LegalAttestation` attribute to set the possible
    /// legal attestations.
    /// If [`SignatureSeedValueFlags::LEGAL_ATTESTATION`] is present on
    /// [constraint flags](SignatureSeedValue::constraint_flags),
    /// one of these must be used when signing.
    pub fn legal_attestation(&mut self, legal_attestations: &[TextStr<'_>]) -> (r: &mut Self)
        requires
            0 <= old(self).dict.len < i32::MAX,
            legal_attestations@.len() <= i32::MAX,
        ensures
            dict_items_appended(old(self).dict, r.dict, "LegalAttestation".spec_bytes(), legal_attestations@),
            *final(r.dict.buf) == *final(old(self).dict.buf),
            *final(self) == *final(r),
    {
        write_items_entry(&mut self.dict, Name("LegalAttestation".as_bytes()), legal_attestations);
        self
    }

    /// Write the `/AddRevInfo` attribute to set whether revocation
    /// checking shall be carried out.
    /// If [`SignatureSeedValueFlags::ADD_REV_INFO`] is present on
    /// [constraint flags](SignatureSeedValue::constraint_flags)
    /// and revocation checking fails, then signing shall fail.
    pub fn add_rev_info(&mut self, check_revocation: bool) -> (r: &mut Self)
        requires
            0 <= old(self).dict.len < i32::MAX,
        ensures
            dict_pair_appended(old(self).dict, r.dict, "AddRevInfo".spec_bytes(), check_revocation),
            *final(r.dict.buf) == *final(old(self).dict.buf),
            *final(self) == *final(r),
    {
        self.dict.pair(Name("AddRevInfo".as_bytes()), check_revocation);
        self
    }

    /// Write the `/LockDocument` attribute to set the author's intent for
    /// whether the signing dialog should allow the user to lock the document
    /// at the time of signing.
    /// Unless this is set to [`LockingIntent::Auto`], the user cannot
    /// override this if [`SignatureSeedValueFlags::LOCK_DOCUMENT`] is present
    /// on [constraint flags](SignatureSeedValue::constraint_flags).
    /// PDF 2.0+.
    pub fn lock_document(&mut self, intent: LockingIntent) -> (r: &mut Self)
        requires
            0 <= old(self).dict.len < i32::MAX,
        ensures
            dict_name_pair_appended(old(self).dict, r.dict, "LockDocument".spec_bytes(), intent.spec_name()),
            *final(r.dict.buf) == *final(old(self).dict.buf),
            *final(self) == *final(r),
    {
        self.dict.pair(Name("LockDocument".as_bytes()), intent.to_name());
        self
    }

    /// Write the `/AppearanceFilter` attribute to set the appearance that
    /// shall be used when signing the signature field.
    /// If [`SignatureSeedValueFlags::APPEARANCE_FILTER`] is present on
    /// [constraint flags](SignatureSeedValue::constraint_flags),
    /// the appearance must be available and used to sign the document.
    /// PDF 2.0+.
    pub fn appearance_filter(&mut self, signature_appearance: TextStr<'_>) -> (r: &mut Self)
        requires
            0 <= old(self).dict.len < i32::MAX,
        ensures
            dict_pair_appended(old(self).dict, r.dict, "AppearanceFilter".spec_bytes(), signature_appearance),
            *final(r.dict.buf) == *final(old(self).dict.buf),
            *final(self) == *final(r),
    {
        self.dict.pair(Name("AppearanceFilter".as_bytes()), signature_appearance);
        self
    }

    /// Finish writing the dictionary.
    pub fn finish(self)
        requires
            self.dict.len >= 0,
            self.dict.indent >= 2,
        ensures
            final(self.dict.buf)@ == old(self.dict.buf)@ + dict_close_bytes(
                self.dict.len as int,
                self.dict.settings.pretty,
                self.dict.indent as int,
                self.dict.indirect,
            ),
            final(self.dict.buf).spec_limits() == old(self.dict.buf).spec_limits().with_dict_entries(self.dict.len as int),
    {
        self.dict.finish();
    }
}

/// Writer for the `/MDP` dictionary in the
/// [_signature seed value dictionary_](SignatureSeedValue).
///
/// This struct is created by [`SignatureSeedValue::modification_detection_prevention`].
pub struct SignatureModificationDetectionPrevention<'a> {
    /// The underlying dictionary.
    pub dict: Dict<'a>,
}

impl<'a> SignatureModificationDetectionPrevention<'a> {
    /// Start writing the dictionary on an object.
    pub(crate) fn start(obj: Obj<'a>) -> (r: Self)
        ensures
            dict_started(
                r.dict,
                old(obj.buf)@,
                obj.indirect,
                obj.indent,
                obj.settings,
                None,
                None,
            ),
            r.dict.buf.spec_limits() == dict_start_limits(old(obj.buf).spec_limits(), None, None),
            *final(r.dict.buf) == *final(obj.buf),
    {
        Self { dict: start_dict(obj, None, None) }
    }

    /// Write the `/P` attribute to set the type of signature of
    /// this field and the changes allowed without invalidating the signature.
    pub fn signature_type(&mut self, p: MdpSignatureType) -> (r: &mut Self)
        requires
            0 <= old(self).dict.len < i32::MAX,
        ensures
            dict_pair_appended(old(self).dict, r.dict, "P".spec_bytes(), p.spec_int()),
            *final(r.dict.buf) == *final(old(self).dict.buf),
            *final(self) == *final(r),
    {
        self.dict.pair(Name("P".as_bytes()), p.to_int());
        self
    }

    /// Finish writing the dictionary.
    pub fn finish(self)
        requires
            self.dict.len >= 0,
            self.dict.indent >= 2,
        ensures
            final(self.dict.buf)@ == old(self.dict.buf)@ + dict_close_bytes(
                self.dict.len as int,
                self.dict.settings.pretty,
                self.dict.indent as int,
                self.dict.indirect,
            ),
            final(self.dict.buf).spec_limits() == old(self.dict.buf).spec_limits().with_dict_entries(self.dict.len as int),
    {
        self.dict.finish();
    }
}

/// Writer for the `/TimeStamp` dictionary in the
/// [_signature seed value dictionary_](SignatureSeedValue).
///
/// This struct is created by [`SignatureSeedValue::timestamp`].
pub struct SignatureTimeStamp<'a> {
    /// The underlying dictionary.
    pub dict: Dict<'a>,
}

impl<'a> SignatureTimeStamp<'a> {
    /// Start writing the dictionary on an object.
    pub(crate) fn start(obj: Obj<'a>) -> (r: Self)
        ensures
            dict_started(
                r.dict,
                old(obj.buf)@,
                obj.indirect,
                obj.indent,
                obj.settings,
                None,
                None,
            ),
            r.dict.buf.spec_limits() == dict_start_limits(old(obj.buf).spec_limits(), None, None),
            *final(r.dict.buf) == *final(obj.buf),
    {
        Self { dict: start_dict(obj, None, None) }
    }

    /// Write the `/URL` attribute to set the URL of the timestamping
    /// server to use when signing.
    pub fn url(&mut self, url: Str<'_>) -> (r: &mut Self)
        requires
            0 <= old(self).dict.len < i32::MAX,
        ensures
            dict_pair_appended(old(self).dict, r.dict, "URL".spec_bytes(), url),
            *final(r.dict.buf) == *final(old(self).dict.buf),
            *final(self) == *final(r),
    {
        self.dict.pair(Name("URL".as_bytes()), url);
        self
    }

    /// Write the `/Ff` attribute to set whether the signature
    /// must have a timestamp.
    pub fn required(&mut self, required: bool) -> (r: &mut Self)
        requires
            0 <= old(self).dict.len < i32::MAX,
        ensures
            dict_pair_appended(old(self).dict, r.dict, "Ff".spec_bytes(), if required { 1i32 } else { 0i32 }),
            *final(r.dict.buf) == *final(old(self).dict.buf),
            *final(self) == *final(r),
    {
        self.dict.pair(Name("Ff".as_bytes()), if required { 1i32 } else { 0i32 });
        self
    }

    /// Finish writing the dictionary.
    pub fn finish(self)
        requires
            self.dict.len >= 0,
            self.dict.indent >= 2,
        ensures
            final(self.dict.buf)@ == old(self.dict.buf)@ + dict_close_bytes(
                self.dict.len as int,
                self.dict.settings.pretty,
                self.dict.indent as int,
                self.dict.indirect,
            ),
            final(self.dict.buf).spec_limits() == old(self.dict.buf).spec_limits().with_dict_entries(self.dict.len as int),
    {
        self.dict.finish();
    }
}

/// Writer for a _certificate seed value dictionary_.
///
/// This struct is created by [`SignatureSeedValue::certificate`].
pub struct CertificateSeedValue<'a> {
    /// The underlying dictionary.
    pub dict: Dict<'a>,
}

impl<'a> CertificateSeedValue<'a> {
    /// Start writing the dictionary on an object.
    pub(crate) fn start(obj: Obj<'a>) -> (r: Self)
        ensures
            dict_started(
                r.dict,
                old(obj.buf)@,
                obj.indirect,
                obj.indent,
                obj.settings,
                Some("SVCert".spec_bytes()),
                None,
            ),
            r.dict.buf.spec_limits() == dict_start_limits(old(obj.buf).spec_limits(), Some("SVCert".spec_bytes()), None),
            *final(r.dict.buf) == *final(obj.buf),
    {
        Self { dict: start_dict(obj, Some("SVCert"), None) }
    }

    /// Write the `/Ff` attribute to set which entries of this certificate
    /// seed value dictionary are mandatory constraints.
    ///
    /// The flags are given by their bits.
    pub fn constraint_flags(&mut self, flags: u32) -> (r: &mut Self)
        requires
            0 <= old(self).dict.len < i32::MAX,
            flags as i32 != i32::MIN,
        ensures
            dict_pair_appended(old(self).dict, r.dict, "Ff".spec_bytes(), flags as i32),
            *final(r.dict.buf) == *final(old(self).dict.buf),
            *final(self) == *final(r),
    {
        self.dict.pair(Name("Ff".as_bytes()), flags as i32);
        self
    }

    /// Write the `/Subject` attribute to set which DER-encoded X.509v3
    /// certificates are acceptable for signing.
    /// If [`CertificateSeedValueFlags::SUBJECT`] is present on
    /// [constraint flags](CertificateSeedValue::constraint_flags),
    /// this is a required constraint.
    pub fn subject(&mut self, certificates: &[Str<'_>]) -> (r: &mut Self)
        requires
            0 <= old(self).dict.len < i32::MAX,
            certificates@.len() <= i32::MAX,
        ensures
            dict_items_appended(old(self).dict, r.dict, "Subject".spec_bytes(), certificates@),
            *final(r.dict.buf) == *final(old(self).dict.buf),
            *final(self) == *final(r),
    {
        write_items_entry(&mut self.dict, Name("Subject".as_bytes()), certificates);
        self
    }

    /// Write the `/SignaturePolicyOID` attribute to set the OID of
    /// the signature policy to use when signing. PDF 2.0+.
    pub fn signature_policy_oid(&mut self, oid: Str<'_>) -> (r: &mut Self)
        requires
            0 <= old(self).dict.len < i32::MAX,
        ensures
            dict_pair_appended(old(self).dict, r.dict, "SignaturePolicyOID".spec_bytes(), oid),
            *final(r.dict.buf) == *final(old(self).dict.buf),
            *final(self) == *final(r),
    {
        self.dict.pair(Name("SignaturePolicyOID".as_bytes()), oid);
        self
    }

    /// Write the `/SignaturePolicyHashValue` attribute to set the
    /// computed hash value of the signature policy, according to the
    /// hash algorithm specified by the
    /// [`/SignaturePolicyHashAlgorithm`](CertificateSeedValue::signature_policy_hash_algorithm)
    /// attribute. PDF 2.0+.
    pub fn signature_policy_hash_value(&mut self, hash_value: Str<'_>) -> (r: &mut Self)
        requires
            0 <= old(self).dict.len < i32::MAX,
        ensures
            dict_pair_appended(old(self).dict, r.dict, "SignaturePolicyHashValue".spec_bytes(), hash_value),
            *final(r.dict.buf) == *final(old(self).dict.buf),
            *final(self) == *final(r),
    {
        self.dict.pair(Name("SignaturePolicyHashValue".as_bytes()), hash_value);
        self
    }

    /// Write the `/SignaturePolicyHashAlgorithm` attribute to set the
    /// hash function used to compute the value of the
    /// [`/SignaturePolicyHashValue`](CertificateSeedValue::signature_policy_hash_value)
    /// attribute. PDF 2.0+.
    pub fn signature_policy_hash_algorithm(&mut self, hash_algorithm: Name<'_>) -> (r: &mut Self)
        requires
            0 <= old(self).dict.len < i32::MAX,
        ensures
            dict_pair_appended(old(self).dict, r.dict, "SignaturePolicyHashAlgorithm".spec_bytes(), hash_algorithm),
            *final(r.dict.buf) == *final(old(self).dict.buf),
            *final(self) == *final(r),
    {
        self.dict.pair(Name("SignaturePolicyHashAlgorithm".as_bytes()), hash_algorithm);
        self
    }

    /// Write the `/SignaturePolicyCommitmentType` attribute to set the
    /// commitment types that may be used within the signature policy,
    /// if the [`/SignaturePolicyOID`](CertificateSeedValue::signature_policy_oid)
    /// attribute is present.
    /// An empty string may be used to indicate that all commitments defined
    /// by the signature policy may be used. PDF 2.0+.
    pub fn signature_policy_commitment_type(&mut self, commitment_types: &[Str<'_>]) -> (r: &mut Self)
        requires
            0 <= old(self).dict.len < i32::MAX,
            commitment_types@.len() <= i32::MAX,
        ensures
            dict_items_appended(old(self).dict, r.dict, "SignaturePolicyCommitmentType".spec_bytes(), commitment_types@),
            *final(r.dict.buf) == *final(old(self).dict.buf),
            *final(self) == *final(r),
    {
        write_items_entry(&mut self.dict, Name("SignaturePolicyCommitmentType".as_bytes()), commitment_types);
        self
    }

    /// Write the `/Issuer` attribute to set which issuers' DER-encoded
    /// X.509v3 certificates are acceptable for signing.
    /// If [`CertificateSeedValueFlags::ISSUER`] is present on
    /// [constraint flags](CertificateSeedValue::constraint_flags),
    /// this is a required constraint.
    pub fn issuer(&mut self, issuers: &[Str<'_>]) -> (r: &mut Self)
        requires
            0 <= old(self).dict.len < i32::MAX,
            issuers@.len() <= i32::MAX,
        ensures
            dict_items_appended(old(self).dict, r.dict, "Issuer".spec_bytes(), issuers@),
            *final(r.dict.buf) == *final(old(self).dict.buf),
            *final(self) == *final(r),
    {
        write_items_entry(&mut self.dict, Name("Issuer".as_bytes()), issuers);
        self
    }

    /// Write the `/OID` attribute to set which certificate policies'
    /// Object Identifiers (OIDs) shall be present in the signing certificate.
    /// If [`CertificateSeedValueFlags::OID`] is present on
    /// [constraint flags](CertificateSeedValue::constraint_flags),
    /// this is a required constraint.
    pub fn oid(&mut self, oids: &[Str<'_>]) -> (r: &mut Self)
        requires
            0 <= old(self).dict.len < i32::MAX,
            oids@.len() <= i32::MAX,
        ensures
            dict_items_appended(old(self).dict, r.dict, "OID".spec_bytes(), oids@),
            *final(r.dict.buf) == *final(old(self).dict.buf),
            *final(self) == *final(r),
    {
        write_items_entry(&mut self.dict, Name("OID".as_bytes()), oids);
        self
    }

    /// Write the `/URL` attribute to set a URL whose use is defined
    /// by the [`/URLType`](CertificateSeedValue::url_type) attribute.
    pub fn url(&mut self, url: Str<'_>) -> (r: &mut Self)
        requires
            0 <= old(self).dict.len < i32::MAX,
        ensures
            dict_pair_appended(old(self).dict, r.dict, "URL".spec_bytes(), url),
            *final(r.dict.buf) == *final(old(self).dict.buf),
            *final(self) == *final(r),
    {
        self.dict.pair(Name("URL".as_bytes()), url);
        self
    }

    /// Write the `/URLType` attribute to set the use of
    /// the [`/URL`](CertificateSeedValue::url) attribute.
    /// PDF 1.7+.
    pub fn url_type(&mut self, url_type: CertificateUrlType) -> (r: &mut Self)
        requires
            0 <= old(self).dict.len < i32::MAX,
        ensures
            dict_name_pair_appended(old(self).dict, r.dict, "URLType".spec_bytes(), url_type.spec_name()),
            *final(r.dict.buf) == *final(old(self).dict.buf),
            *final(self) == *final(r),
    {
        self.dict.pair(Name("URLType".as_bytes()), url_type.to_name());
        self
    }

    /// Finish writing the dictionary.
    pub fn finish(self)
        requires
            self.dict.len >= 0,
            self.dict.indent >= 2,
        ensures
            final(self.dict.buf)@ == old(self.dict.buf)@ + dict_close_bytes(
                self.dict.len as int,
                self.dict.settings.pretty,
                self.dict.indent as int,
                self.dict.indirect,
            ),
            final(self.dict.buf).spec_limits() == old(self.dict.buf).spec_limits().with_dict_entries(self.dict.len as int),
    {
        self.dict.finish();
    }
}


/// The names under which the values of [`FieldType`] are written, as PDF
/// defines them.
pub proof fn lemma_field_type_names()
    ensures
        FieldType::Button.spec_name() == "Btn".spec_bytes(),
        FieldType::Text.spec_name() == "Tx".spec_bytes(),
        FieldType::Choice.spec_name() == "Ch".spec_bytes(),
        FieldType::Signature.spec_name() == "Sig".spec_bytes(),
{
}

/// The names under which the values of [`CheckBoxState`] are written, as PDF
/// defines them.
pub proof fn lemma_check_box_state_names()
    ensures
        CheckBoxState::Yes.spec_name() == "Yes".spec_bytes(),
        CheckBoxState::Off.spec_name() == "Off".spec_bytes(),
{
}

/// The names under which the values of [`SignatureLockAction`] are written, as PDF
/// defines them.
pub proof fn lemma_signature_lock_action_names()
    ensures
        SignatureLockAction::All.spec_name() == "All".spec_bytes(),
        SignatureLockAction::Include.spec_name() == "Include".spec_bytes(),
        SignatureLockAction::Exclude.spec_name() == "Exclude".spec_bytes(),
{
}

/// The names under which the values of [`SignatureDigestMethod`] are written, as PDF
/// defines them.
pub proof fn lemma_signature_digest_method_names()
    ensures
        SignatureDigestMethod::SHA1.spec_name() == "SHA1".spec_bytes(),
        SignatureDigestMethod::SHA256.spec_name() == "SHA256".spec_bytes(),
        SignatureDigestMethod::SHA384.spec_name() == "SHA384".spec_bytes(),
        SignatureDigestMethod::SHA512.spec_name() == "SHA512".spec_bytes(),
        SignatureDigestMethod::RIPEMD160.spec_name() == "RIPEMD160".spec_bytes(),
{
}

/// The numbers under which the values of [`SeedValueParserVersion`] are written, as PDF
/// defines them.
pub proof fn lemma_seed_value_parser_version_numbers()
    ensures
        SeedValueParserVersion::Pdf15.spec_int() == 1,
        SeedValueParserVersion::Pdf17.spec_int() == 2,
        SeedValueParserVersion::Pdf20.spec_int() == 3,
{
}

/// The numbers under which the values of [`AccessPermissions`] are written, as PDF
/// defines them.
pub proof fn lemma_access_permissions_numbers()
    ensures
        AccessPermissions::NoChanges.spec_int() == 1,
        AccessPermissions::FillAndSign.spec_int() == 2,
        AccessPermissions::Annotations.spec_int() == 3,
{
}

/// The numbers under which the values of [`MdpSignatureType`] are written, as PDF
/// defines them.
pub proof fn lemma_mdp_signature_type_numbers()
    ensures
        MdpSignatureType::ApprovalSignature.spec_int() == 0,
{
}

/// The names under which the values of [`LockingIntent`] are written, as PDF
/// defines them.
pub proof fn lemma_locking_intent_names()
    ensures
        LockingIntent::Lock.spec_name() == "true".spec_bytes(),
        LockingIntent::DoNotLock.spec_name() == "false".spec_bytes(),
        LockingIntent::Auto.spec_name() == "auto".spec_bytes(),
{
}

/// The names under which the values of [`CertificateUrlType`] are written, as PDF
/// defines them.
pub proof fn lemma_certificate_url_type_names()
    ensures
        CertificateUrlType::Browser.spec_name() == "Browser".spec_bytes(),
{
}

} // verus!
