use vstd::prelude::*;
use vstd::string::*;

use crate::object::{
    dict_start_limits,
    Array, array_close_bytes, array_item_appended,
    array_started, Date, Dict, LBRACKET, Name, NameTree, NumberTree, Obj, Ref, Str, Stream, TextStr, TextStrLike, TypedArray, dict_close_bytes, dict_grown, dict_items_entry_bytes, dict_key_bytes, dict_name_pair_appended, dict_pair_appended, dict_started, start_dict, stream_close_bytes, type_entries_bytes, type_stream, write_items_entry,
};
use crate::files::{FileSpec};
use crate::renditions::{Rendition};
use crate::structure::Destination;

verus! {

/// What kind of action to perform when clicking a link annotation.
#[derive(Debug, Copy, Clone, Eq, PartialEq, Hash)]
pub enum ActionType {
    /// Go to a destination in the document.
    GoTo,
    /// Go to a destination in another document.
    RemoteGoTo,
    /// Launch an application.
    Launch,
    /// Open a URI.
    Uri,
    /// Set an annotation's hidden flag. PDF 1.2+.
    SubmitForm,
    /// Set form fields to their default values. PDF 1.2+.
    ResetForm,
    /// Import form field values from a file. PDF 1.2+.
    ImportData,
    /// Execute a JavaScript action. PDF 1.2+.
    ///
    /// See Adobe's
    /// [JavaScript for Acrobat API Reference](https://opensource.adobe.com/dc-acrobat-sdk-docs/acrobatsdk/pdfs/acrobatsdk_jsapiref.pdf)
    /// and ISO 21757.
    JavaScript,
    /// A rendition action to control the playing of multimedia content. PDF 1.5+.
    Rendition,
}

impl ActionType {
    /// The name under which the value is written.
    pub open spec fn spec_name(self) -> Seq<u8> {
        match self {
            Self::GoTo => "GoTo".spec_bytes(),
            Self::RemoteGoTo => "GoToR".spec_bytes(),
            Self::Launch => "Launch".spec_bytes(),
            Self::Uri => "URI".spec_bytes(),
            Self::SubmitForm => "SubmitForm".spec_bytes(),
            Self::ResetForm => "ResetForm".spec_bytes(),
            Self::ImportData => "ImportData".spec_bytes(),
            Self::JavaScript => "JavaScript".spec_bytes(),
            Self::Rendition => "Rendition".spec_bytes(),
        }
    }

    pub(crate) fn to_name(self) -> (r: Name<'static>)
        ensures
            r.0@ == self.spec_name(),
    {
        match self {
            Self::GoTo => Name("GoTo".as_bytes()),
            Self::RemoteGoTo => Name("GoToR".as_bytes()),
            Self::Launch => Name("Launch".as_bytes()),
            Self::Uri => Name("URI".as_bytes()),
            Self::SubmitForm => Name("SubmitForm".as_bytes()),
            Self::ResetForm => Name("ResetForm".as_bytes()),
            Self::ImportData => Name("ImportData".as_bytes()),
            Self::JavaScript => Name("JavaScript".as_bytes()),
            Self::Rendition => Name("Rendition".as_bytes()),
        }
    }
}

/// The operation to perform when a rendition action is triggered.
#[derive(Debug, Copy, Clone, Eq, PartialEq, Hash)]
pub enum RenditionOperation {
    /// Play the rendition specified by /R, and associating it with the
    /// annotation. If a rendition is already associated with the annotation, it
    /// shall be stopped, and the new rendition shall be associated with the
    /// annotation.
    Play,
    /// Stop any rendition being played in association with the annotation.
    Stop,
    /// Pause any rendition being played in association with the annotation.
    Pause,
    /// Resume any rendition being played in association with the annotation.
    Resume,
    /// Play the rendition specified by /R, and associating it with the
    /// annotation, or resume if a rendition is already associated.
    PlayOrResume,
}

impl RenditionOperation {
    /// The number under which the operation is written.
    pub open spec fn spec_int(self) -> i32 {
        match self {
            Self::Play => 0,
            Self::Stop => 1,
            Self::Pause => 2,
            Self::Resume => 3,
            Self::PlayOrResume => 4,
        }
    }

    pub(crate) fn to_int(self) -> (r: i32)
        ensures
            r == self.spec_int(),
    {
        match self {
            Self::Play => 0,
            Self::Stop => 1,
            Self::Pause => 2,
            Self::Resume => 3,
            Self::PlayOrResume => 4,
        }
    }
}

impl Action<'_> {
    /// Start writing the `/D` attribute to set the destination of this
    /// GoTo-type action.
    pub fn destination(&mut self) -> (r: Destination<'_>)
        requires
            0 <= old(self).dict.len < i32::MAX,
        ensures
            array_started(
                r.array,
                old(self).dict.buf@ + dict_key_bytes(
                    old(self).dict.settings.pretty,
                    old(self).dict.indent as int,
                    "D".spec_bytes(),
                ),
                false,
                old(self).dict.indent,
                old(self).dict.settings,
            ),
            r.array.buf.spec_limits() == old(self).dict.buf.spec_limits().with_name_len("D".spec_bytes().len() as int),
            final(self).dict.len == old(self).dict.len + 1,
            final(self).dict.indirect == old(self).dict.indirect,
            final(self).dict.indent == old(self).dict.indent,
            final(self).dict.settings == old(self).dict.settings,
            *final(self).dict.buf == *final(r.array.buf),
            *final(final(self).dict.buf) == *final(old(self).dict.buf),
    {
        Destination::start(self.dict.insert(Name("D".as_bytes())))
    }
}

impl Action<'_> {
    /// Start writing the `/Fields` array to set the fields which are affected
    /// by a reset-form or submit-form action.
    pub fn fields(&mut self) -> (r: Fields<'_>)
        requires
            0 <= old(self).dict.len < i32::MAX,
        ensures
            array_started(
                r.array,
                old(self).dict.buf@ + dict_key_bytes(
                    old(self).dict.settings.pretty,
                    old(self).dict.indent as int,
                    "Fields".spec_bytes(),
                ),
                false,
                old(self).dict.indent,
                old(self).dict.settings,
            ),
            r.array.buf.spec_limits() == old(self).dict.buf.spec_limits().with_name_len("Fields".spec_bytes().len() as int),
            final(self).dict.len == old(self).dict.len + 1,
            final(self).dict.indirect == old(self).dict.indirect,
            final(self).dict.indent == old(self).dict.indent,
            final(self).dict.settings == old(self).dict.settings,
            *final(self).dict.buf == *final(r.array.buf),
            *final(final(self).dict.buf) == *final(old(self).dict.buf),
    {
        Fields::start(self.dict.insert(Name("Fields".as_bytes())))
    }
}

/// Writer for a _fields array_.
///
/// This struct is created by [`Action::fields`].
pub struct Fields<'a> {
    /// The array being written.
    pub array: Array<'a>,
}

impl<'a> Fields<'a> {
    /// Start writing the array on an object.
    pub(crate) fn start(obj: Obj<'a>) -> (r: Self)
        ensures
            array_started(r.array, old(obj.buf)@, obj.indirect, obj.indent, obj.settings),
            *final(r.array.buf) == *final(obj.buf),
            r.array.buf.spec_limits() == old(obj.buf).spec_limits(),
    {
        Self { array: obj.array() }
    }

    /// The indirect reference to the field.
    pub fn id(&mut self, id: Ref) -> (r: &mut Self)
        requires
            0 <= old(self).array.len < i32::MAX,
        ensures
            array_item_appended(old(self).array, r.array, id),
            *final(r.array.buf) == *final(old(self).array.buf),
            *final(self) == *final(r),
    {
        self.array.item(id);
        self
    }

    /// The fully qualified name of the field. PDF 1.3+.
    pub fn name(&mut self, name: TextStr) -> (r: &mut Self)
        requires
            0 <= old(self).array.len < i32::MAX,
        ensures
            array_item_appended(old(self).array, r.array, name),
            *final(r.array.buf) == *final(old(self).array.buf),
            *final(self) == *final(r),
    {
        self.array.item(name);
        self
    }

    /// Finish the array.
    pub fn finish(self)
        requires
            self.array.len >= 0,
        ensures
            final(self.array.buf)@ == old(self.array.buf)@ + array_close_bytes(
                self.array.indirect,
                self.array.settings.pretty,
            ),
            final(self.array.buf).spec_limits() == old(self.array.buf).spec_limits().with_array_len(self.array.len as int),
    {
        self.array.finish();
    }
}

// ---------------------------------------------------------------------------
// Writers.
// ---------------------------------------------------------------------------

/// Writer for an _action dictionary_.
///
/// This struct is created by [`Annotation::action`] and many keys of
/// [`AdditionalActions`].
pub struct Action<'a> {
    /// The underlying dictionary.
    pub dict: Dict<'a>,
}

impl<'a> Action<'a> {
    /// Start writing the dictionary on an object.
    pub(crate) fn start(obj: Obj<'a>) -> (r: Self)
        ensures
            dict_started(
                r.dict,
                old(obj.buf)@,
                obj.indirect,
                obj.indent,
                obj.settings,
                Some("Action".spec_bytes()),
                None,
            ),
            r.dict.buf.spec_limits() == dict_start_limits(old(obj.buf).spec_limits(), Some("Action".spec_bytes()), None),
            *final(r.dict.buf) == *final(obj.buf),
    {
        Self { dict: start_dict(obj, Some("Action"), None) }
    }

    /// Write the `/S` attribute to set the action type.
    pub fn action_type(&mut self, kind: ActionType) -> (r: &mut Self)
        requires
            0 <= old(self).dict.len < i32::MAX,
        ensures
            dict_name_pair_appended(old(self).dict, r.dict, "S".spec_bytes(), kind.spec_name()),
            *final(r.dict.buf) == *final(old(self).dict.buf),
            *final(self) == *final(r),
    {
        self.dict.pair(Name("S".as_bytes()), kind.to_name());
        self
    }

    /// Write the `/D` attribute to set the destination of this GoTo-type action
    /// to a named destination.
    pub fn destination_named(&mut self, name: Name) -> (r: &mut Self)
        requires
            0 <= old(self).dict.len < i32::MAX,
        ensures
            dict_pair_appended(old(self).dict, r.dict, "D".spec_bytes(), name),
            *final(r.dict.buf) == *final(old(self).dict.buf),
            *final(self) == *final(r),
    {
        self.dict.pair(Name("D".as_bytes()), name);
        self
    }

    /// Start writing the `/F` attribute, depending on the [`ActionType`], setting:
    /// - `RemoteGoTo`: which file to go to
    /// - `Launch`: which application to launch
    /// - `SubmitForm`: script location of the webserver that processes the
    ///   submission
    /// - `ImportData`: the FDF file from which to import data.
    pub fn file_spec(&mut self) -> (r: FileSpec<'_>)
        requires
            0 <= old(self).dict.len < i32::MAX,
        ensures
            dict_started(
                r.dict,
                old(self).dict.buf@ + dict_key_bytes(
                    old(self).dict.settings.pretty,
                    old(self).dict.indent as int,
                    "F".spec_bytes(),
                ),
                false,
                old(self).dict.indent,
                old(self).dict.settings,
                Some("Filespec".spec_bytes()),
                None,
            ),
            r.dict.buf.spec_limits() == dict_start_limits(
                old(self).dict.buf.spec_limits().with_name_len("F".spec_bytes().len() as int),
                Some("Filespec".spec_bytes()),
                None,
            ),
            final(self).dict.len == old(self).dict.len + 1,
            final(self).dict.indirect == old(self).dict.indirect,
            final(self).dict.indent == old(self).dict.indent,
            final(self).dict.settings == old(self).dict.settings,
            *final(self).dict.buf == *final(r.dict.buf),
            *final(final(self).dict.buf) == *final(old(self).dict.buf),
    {
        FileSpec::start(self.dict.insert(Name("F".as_bytes())))
    }

    /// Write the `/NewWindow` attribute to set whether this remote GoTo action
    /// should open the referenced destination in another window.
    pub fn new_window(&mut self, new: bool) -> (r: &mut Self)
        requires
            0 <= old(self).dict.len < i32::MAX,
        ensures
            dict_pair_appended(old(self).dict, r.dict, "NewWindow".spec_bytes(), new),
            *final(r.dict.buf) == *final(old(self).dict.buf),
            *final(self) == *final(r),
    {
        self.dict.pair(Name("NewWindow".as_bytes()), new);
        self
    }

    /// Write the `/URI` attribute to set where this link action goes.
    pub fn uri(&mut self, uri: Str) -> (r: &mut Self)
        requires
            0 <= old(self).dict.len < i32::MAX,
        ensures
            dict_pair_appended(old(self).dict, r.dict, "URI".spec_bytes(), uri),
            *final(r.dict.buf) == *final(old(self).dict.buf),
            *final(self) == *final(r),
    {
        self.dict.pair(Name("URI".as_bytes()), uri);
        self
    }

    /// Write the `/IsMap` attribute to set if the click position of the user's
    /// cursor inside the link rectangle should be appended to the referenced
    /// URI as a query parameter.
    pub fn is_map(&mut self, map: bool) -> (r: &mut Self)
        requires
            0 <= old(self).dict.len < i32::MAX,
        ensures
            dict_pair_appended(old(self).dict, r.dict, "IsMap".spec_bytes(), map),
            *final(r.dict.buf) == *final(old(self).dict.buf),
            *final(self) == *final(r),
    {
        self.dict.pair(Name("IsMap".as_bytes()), map);
        self
    }

    /// Write the `/JS` attribute to set the script of this action as a text
    /// string. Only permissible for JavaScript and Rendition actions.
    pub fn js_string(&mut self, script: TextStr) -> (r: &mut Self)
        requires
            0 <= old(self).dict.len < i32::MAX,
        ensures
            dict_pair_appended(old(self).dict, r.dict, "JS".spec_bytes(), script),
            *final(r.dict.buf) == *final(old(self).dict.buf),
            *final(self) == *final(r),
    {
        self.dict.pair(Name("JS".as_bytes()), script);
        self
    }

    /// Write the `/JS` attribute to set the script of this action as a text
    /// stream. The indirect reference shall point to a stream containing valid
    /// ECMAScript. The stream must have `PdfDocEncoding` or be in Unicode,
    /// starting with `U+FEFF`. Only permissible for JavaScript and Rendition
    /// actions.
    pub fn js_stream(&mut self, script: Ref) -> (r: &mut Self)
        requires
            0 <= old(self).dict.len < i32::MAX,
        ensures
            dict_pair_appended(old(self).dict, r.dict, "JS".spec_bytes(), script),
            *final(r.dict.buf) == *final(old(self).dict.buf),
            *final(self) == *final(r),
    {
        self.dict.pair(Name("JS".as_bytes()), script);
        self
    }

    /// Write the `/Flags` attribute to set the various characteristics of form
    /// action.
    ///
    /// The flags are given by their bits.
    pub fn form_flags(&mut self, flags: u32) -> (r: &mut Self)
        requires
            0 <= old(self).dict.len < i32::MAX,
            flags as i32 != i32::MIN,
        ensures
            dict_pair_appended(old(self).dict, r.dict, "Flags".spec_bytes(), flags as i32),
            *final(r.dict.buf) == *final(old(self).dict.buf),
            *final(self) == *final(r),
    {
        self.dict.pair(Name("Flags".as_bytes()), flags as i32);
        self
    }

    /// Write the `/OP` attribute to set the operation to perform when the
    /// action is triggered.
    pub fn operation(&mut self, op: RenditionOperation) -> (r: &mut Self)
        requires
            0 <= old(self).dict.len < i32::MAX,
        ensures
            dict_pair_appended(old(self).dict, r.dict, "OP".spec_bytes(), op.spec_int()),
            *final(r.dict.buf) == *final(old(self).dict.buf),
            *final(self) == *final(r),
    {
        self.dict.pair(Name("OP".as_bytes()), op.to_int());
        self
    }

    /// Write the `/AN` attribute to provide a reference to the screen
    /// annotation for the operation. Required if OP is present.
    pub fn annotation(&mut self, id: Ref) -> (r: &mut Self)
        requires
            0 <= old(self).dict.len < i32::MAX,
        ensures
            dict_pair_appended(old(self).dict, r.dict, "AN".spec_bytes(), id),
            *final(r.dict.buf) == *final(old(self).dict.buf),
            *final(self) == *final(r),
    {
        self.dict.pair(Name("AN".as_bytes()), id);
        self
    }

    /// Start writing the `/R` dictionary. Only permissible for the subtype
    /// `Rendition`.
    pub fn rendition(&mut self) -> (r: Rendition<'_>)
        requires
            0 <= old(self).dict.len < i32::MAX,
        ensures
            dict_started(
                r.dict,
                old(self).dict.buf@ + dict_key_bytes(
                    old(self).dict.settings.pretty,
                    old(self).dict.indent as int,
                    "R".spec_bytes(),
                ),
                false,
                old(self).dict.indent,
                old(self).dict.settings,
                Some("Rendition".spec_bytes()),
                None,
            ),
            r.dict.buf.spec_limits() == dict_start_limits(
                old(self).dict.buf.spec_limits().with_name_len("R".spec_bytes().len() as int),
                Some("Rendition".spec_bytes()),
                None,
            ),
            final(self).dict.len == old(self).dict.len + 1,
            final(self).dict.indirect == old(self).dict.indirect,
            final(self).dict.indent == old(self).dict.indent,
            final(self).dict.settings == old(self).dict.settings,
            *final(self).dict.buf == *final(r.dict.buf),
            *final(final(self).dict.buf) == *final(old(self).dict.buf),
    {
        Rendition::start(self.dict.insert(Name("R".as_bytes())))
    }

    /// Finish writing the dictionary.
    pub fn finish(self)
        requires
            self.dict.len >= 0,
            self.dict.indent >= 2,
        ensures
            final(self.dict.buf)@ == old(self.dict.buf)@ + dict_close_bytes(
                self.dict.len as int,
                self.dict.settings.pretty,
                self.dict.indent as int,
                self.dict.indirect,
            ),
            final(self.dict.buf).spec_limits() == old(self.dict.buf).spec_limits().with_dict_entries(self.dict.len as int),
    {
        self.dict.finish();
    }
}

/// Writer for an _additional actions dictionary_.
///
/// This struct is created by [`Annotation::additional_actions`],
/// [`Field::additional_actions`], [`Page::additional_actions`] and
/// [`Catalog::additional_actions`].
pub struct AdditionalActions<'a> {
    /// The underlying dictionary.
    pub dict: Dict<'a>,
}

impl<'a> AdditionalActions<'a> {
    /// Start writing the dictionary on an object.
    pub(crate) fn start(obj: Obj<'a>) -> (r: Self)
        ensures
            dict_started(
                r.dict,
                old(obj.buf)@,
                obj.indirect,
                obj.indent,
                obj.settings,
                None,
                None,
            ),
            r.dict.buf.spec_limits() == dict_start_limits(old(obj.buf).spec_limits(), None, None),
            *final(r.dict.buf) == *final(obj.buf),
    {
        Self { dict: start_dict(obj, None, None) }
    }

    /// Start writing the `/E` dictionary. An action that shall be performed
    /// when the cursor enters the annotation's active area. Only permissible
    /// for annotations. PDF 1.2+.
    pub fn annot_curser_enter(&mut self) -> (r: Action<'_>)
        requires
            0 <= old(self).dict.len < i32::MAX,
        ensures
            dict_started(
                r.dict,
                old(self).dict.buf@ + dict_key_bytes(
                    old(self).dict.settings.pretty,
                    old(self).dict.indent as int,
                    "E".spec_bytes(),
                ),
                false,
                old(self).dict.indent,
                old(self).dict.settings,
                Some("Action".spec_bytes()),
                None,
            ),
            r.dict.buf.spec_limits() == dict_start_limits(
                old(self).dict.buf.spec_limits().with_name_len("E".spec_bytes().len() as int),
                Some("Action".spec_bytes()),
                None,
            ),
            final(self).dict.len == old(self).dict.len + 1,
            final(self).dict.indirect == old(self).dict.indirect,
            final(self).dict.indent == old(self).dict.indent,
            final(self).dict.settings == old(self).dict.settings,
            *final(self).dict.buf == *final(r.dict.buf),
            *final(final(self).dict.buf) == *final(old(self).dict.buf),
    {
        Action::start(self.dict.insert(Name("E".as_bytes())))
    }

    /// Start writing the `/X` dictionary. An action that shall be performed
    /// when the cursor exits the annotation's active area. Only permissible for
    /// annotations. PDF 1.2+.
    pub fn annot_cursor_exit(&mut self) -> (r: Action<'_>)
        requires
            0 <= old(self).dict.len < i32::MAX,
        ensures
            dict_started(
                r.dict,
                old(self).dict.buf@ + dict_key_bytes(
                    old(self).dict.settings.pretty,
                    old(self).dict.indent as int,
                    "X".spec_bytes(),
                ),
                false,
                old(self).dict.indent,
                old(self).dict.settings,
                Some("Action".spec_bytes()),
                None,
            ),
            r.dict.buf.spec_limits() == dict_start_limits(
                old(self).dict.buf.spec_limits().with_name_len("X".spec_bytes().len() as int),
                Some("Action".spec_bytes()),
                None,
            ),
            final(self).dict.len == old(self).dict.len + 1,
            final(self).dict.indirect == old(self).dict.indirect,
            final(self).dict.indent == old(self).dict.indent,
            final(self).dict.settings == old(self).dict.settings,
            *final(self).dict.buf == *final(r.dict.buf),
            *final(final(self).dict.buf) == *final(old(self).dict.buf),
    {
        Action::start(self.dict.insert(Name("X".as_bytes())))
    }

    /// Start writing the `/D` dictionary. This sets the action action
    /// that shall be performed when the mouse button is pressed inside the
    /// annotation's active area. Only permissible for annotations. PDF 1.2+.
    pub fn annot_mouse_press(&mut self) -> (r: Action<'_>)
        requires
            0 <= old(self).dict.len < i32::MAX,
        ensures
            dict_started(
                r.dict,
                old(self).dict.buf@ + dict_key_bytes(
                    old(self).dict.settings.pretty,
                    old(self).dict.indent as int,
                    "D".spec_bytes(),
                ),
                false,
                old(self).dict.indent,
                old(self).dict.settings,
                Some("Action".spec_bytes()),
                None,
            ),
            r.dict.buf.spec_limits() == dict_start_limits(
                old(self).dict.buf.spec_limits().with_name_len("D".spec_bytes().len() as int),
                Some("Action".spec_bytes()),
                None,
            ),
            final(self).dict.len == old(self).dict.len + 1,
            final(self).dict.indirect == old(self).dict.indirect,
            final(self).dict.indent == old(self).dict.indent,
            final(self).dict.settings == old(self).dict.settings,
            *final(self).dict.buf == *final(r.dict.buf),
            *final(final(self).dict.buf) == *final(old(self).dict.buf),
    {
        Action::start(self.dict.insert(Name("D".as_bytes())))
    }

    /// Start writing the `/U` dictionary. This sets the action action that
    /// shall be performed when the mouse button is released inside the
    /// annotation's active area. Only permissible for annotations. PDF 1.2+.
    pub fn annot_mouse_release(&mut self) -> (r: Action<'_>)
        requires
            0 <= old(self).dict.len < i32::MAX,
        ensures
            dict_started(
                r.dict,
                old(self).dict.buf@ + dict_key_bytes(
                    old(self).dict.settings.pretty,
                    old(self).dict.indent as int,
                    "U".spec_bytes(),
                ),
                false,
                old(self).dict.indent,
                old(self).dict.settings,
                Some("Action".spec_bytes()),
                None,
            ),
            r.dict.buf.spec_limits() == dict_start_limits(
                old(self).dict.buf.spec_limits().with_name_len("U".spec_bytes().len() as int),
                Some("Action".spec_bytes()),
                None,
            ),
            final(self).dict.len == old(self).dict.len + 1,
            final(self).dict.indirect == old(self).dict.indirect,
            final(self).dict.indent == old(self).dict.indent,
            final(self).dict.settings == old(self).dict.settings,
            *final(self).dict.buf == *final(r.dict.buf),
            *final(final(self).dict.buf) == *final(old(self).dict.buf),
    {
        Action::start(self.dict.insert(Name("U".as_bytes())))
    }

    /// Start writing the `/PO` dictionary. This sets the action action that
    /// shall be performed when the page containing the annotation is opened.
    /// Only permissible for annotations. PDF 1.5+.
    pub fn annot_page_open(&mut self) -> (r: Action<'_>)
        requires
            0 <= old(self).dict.len < i32::MAX,
        ensures
            dict_started(
                r.dict,
                old(self).dict.buf@ + dict_key_bytes(
                    old(self).dict.settings.pretty,
                    old(self).dict.indent as int,
                    "PO".spec_bytes(),
                ),
                false,
                old(self).dict.indent,
                old(self).dict.settings,
                Some("Action".spec_bytes()),
                None,
            ),
            r.dict.buf.spec_limits() == dict_start_limits(
                old(self).dict.buf.spec_limits().with_name_len("PO".spec_bytes().len() as int),
                Some("Action".spec_bytes()),
                None,
            ),
            final(self).dict.len == old(self).dict.len + 1,
            final(self).dict.indirect == old(self).dict.indirect,
            final(self).dict.indent == old(self).dict.indent,
            final(self).dict.settings == old(self).dict.settings,
            *final(self).dict.buf == *final(r.dict.buf),
            *final(final(self).dict.buf) == *final(old(self).dict.buf),
    {
        Action::start(self.dict.insert(Name("PO".as_bytes())))
    }

    /// Start writing the `/PC` dictionary. This sets the action action that
    /// shall be performed when the page containing the annotation is closed.
    /// Only permissible for annotations. PDF 1.5+.
    pub fn annot_page_close(&mut self) -> (r: Action<'_>)
        requires
            0 <= old(self).dict.len < i32::MAX,
        ensures
            dict_started(
                r.dict,
                old(self).dict.buf@ + dict_key_bytes(
                    old(self).dict.settings.pretty,
                    old(self).dict.indent as int,
                    "PC".spec_bytes(),
                ),
                false,
                old(self).dict.indent,
                old(self).dict.settings,
                Some("Action".spec_bytes()),
                None,
            ),
            r.dict.buf.spec_limits() == dict_start_limits(
                old(self).dict.buf.spec_limits().with_name_len("PC".spec_bytes().len() as int),
                Some("Action".spec_bytes()),
                None,
            ),
            final(self).dict.len == old(self).dict.len + 1,
            final(self).dict.indirect == old(self).dict.indirect,
            final(self).dict.indent == old(self).dict.indent,
            final(self).dict.settings == old(self).dict.settings,
            *final(self).dict.buf == *final(r.dict.buf),
            *final(final(self).dict.buf) == *final(old(self).dict.buf),
    {
        Action::start(self.dict.insert(Name("PC".as_bytes())))
    }

    /// Start writing the `/PV` dictionary. This sets the action action that
    /// shall be performed when the page containing the annotation becomes
    /// visible. Only permissible for annotations. PDF 1.5+.
    pub fn annot_page_visible(&mut self) -> (r: Action<'_>)
        requires
            0 <= old(self).dict.len < i32::MAX,
        ensures
            dict_started(
                r.dict,
                old(self).dict.buf@ + dict_key_bytes(
                    old(self).dict.settings.pretty,
                    old(self).dict.indent as int,
                    "PV".spec_bytes(),
                ),
                false,
                old(self).dict.indent,
                old(self).dict.settings,
                Some("Action".spec_bytes()),
                None,
            ),
            r.dict.buf.spec_limits() == dict_start_limits(
                old(self).dict.buf.spec_limits().with_name_len("PV".spec_bytes().len() as int),
                Some("Action".spec_bytes()),
                None,
            ),
            final(self).dict.len == old(self).dict.len + 1,
            final(self).dict.indirect == old(self).dict.indirect,
            final(self).dict.indent == old(self).dict.indent,
            final(self).dict.settings == old(self).dict.settings,
            *final(self).dict.buf == *final(r.dict.buf),
            *final(final(self).dict.buf) == *final(old(self).dict.buf),
    {
        Action::start(self.dict.insert(Name("PV".as_bytes())))
    }

    /// Start writing the `/PI` dictionary. This sets the action action that
    /// shall be performed when the page containing the annotation is no longer
    /// visible in the conforming reader's user interface. Only permissible for
    /// annotations. PDF 1.5+.
    pub fn annot_page_invisible(&mut self) -> (r: Action<'_>)
        requires
            0 <= old(self).dict.len < i32::MAX,
        ensures
            dict_started(
                r.dict,
                old(self).dict.buf@ + dict_key_bytes(
                    old(self).dict.settings.pretty,
                    old(self).dict.indent as int,
                    "PI".spec_bytes(),
                ),
                false,
                old(self).dict.indent,
                old(self).dict.settings,
                Some("Action".spec_bytes()),
                None,
            ),
            r.dict.buf.spec_limits() == dict_start_limits(
                old(self).dict.buf.spec_limits().with_name_len("PI".spec_bytes().len() as int),
                Some("Action".spec_bytes()),
                None,
            ),
            final(self).dict.len == old(self).dict.len + 1,
            final(self).dict.indirect == old(self).dict.indirect,
            final(self).dict.indent == old(self).dict.indent,
            final(self).dict.settings == old(self).dict.settings,
            *final(self).dict.buf == *final(r.dict.buf),
            *final(final(self).dict.buf) == *final(old(self).dict.buf),
    {
        Action::start(self.dict.insert(Name("PI".as_bytes())))
    }

    /// Start writing the `/Fo` dictionary. This sets the action that shall be
    /// performed when the annotation receives the input focus. Only permissible
    /// for widget annotations. PDF 1.2+.
    pub fn widget_focus(&mut self) -> (r: Action<'_>)
        requires
            0 <= old(self).dict.len < i32::MAX,
        ensures
            dict_started(
                r.dict,
                old(self).dict.buf@ + dict_key_bytes(
                    old(self).dict.settings.pretty,
                    old(self).dict.indent as int,
                    "Fo".spec_bytes(),
                ),
                false,
                old(self).dict.indent,
                old(self).dict.settings,
                Some("Action".spec_bytes()),
                None,
            ),
            r.dict.buf.spec_limits() == dict_start_limits(
                old(self).dict.buf.spec_limits().with_name_len("Fo".spec_bytes().len() as int),
                Some("Action".spec_bytes()),
                None,
            ),
            final(self).dict.len == old(self).dict.len + 1,
            final(self).dict.indirect == old(self).dict.indirect,
            final(self).dict.indent == old(self).dict.indent,
            final(self).dict.settings == old(self).dict.settings,
            *final(self).dict.buf == *final(r.dict.buf),
            *final(final(self).dict.buf) == *final(old(self).dict.buf),
    {
        Action::start(self.dict.insert(Name("Fo".as_bytes())))
    }

    /// Start writing the `/Bl` dictionary. This sets the action that shall be
    /// performed when the annotation loses the input focus. Only permissible
    /// for widget annotations. PDF 1.2+.
    pub fn widget_focus_loss(&mut self) -> (r: Action<'_>)
        requires
            0 <= old(self).dict.len < i32::MAX,
        ensures
            dict_started(
                r.dict,
                old(self).dict.buf@ + dict_key_bytes(
                    old(self).dict.settings.pretty,
                    old(self).dict.indent as int,
                    "Bl".spec_bytes(),
                ),
                false,
                old(self).dict.indent,
                old(self).dict.settings,
                Some("Action".spec_bytes()),
                None,
            ),
            r.dict.buf.spec_limits() == dict_start_limits(
                old(self).dict.buf.spec_limits().with_name_len("Bl".spec_bytes().len() as int),
                Some("Action".spec_bytes()),
                None,
            ),
            final(self).dict.len == old(self).dict.len + 1,
            final(self).dict.indirect == old(self).dict.indirect,
            final(self).dict.indent == old(self).dict.indent,
            final(self).dict.settings == old(self).dict.settings,
            *final(self).dict.buf == *final(r.dict.buf),
            *final(final(self).dict.buf) == *final(old(self).dict.buf),
    {
        Action::start(self.dict.insert(Name("Bl".as_bytes())))
    }

    /// Start writing the `/O` dictionary. This sets the action that shall be
    /// performed when the page is opened. This action is independent of any
    /// that may be defined by the open action entry in the
    /// [document catalog](Catalog) and shall be executed after such an action.
    /// Only permissible for [page objects](Page). PDF 1.2+.
    pub fn page_open(&mut self) -> (r: Action<'_>)
        requires
            0 <= old(self).dict.len < i32::MAX,
        ensures
            dict_started(
                r.dict,
                old(self).dict.buf@ + dict_key_bytes(
                    old(self).dict.settings.pretty,
                    old(self).dict.indent as int,
                    "O".spec_bytes(),
                ),
                false,
                old(self).dict.indent,
                old(self).dict.settings,
                Some("Action".spec_bytes()),
                None,
            ),
            r.dict.buf.spec_limits() == dict_start_limits(
                old(self).dict.buf.spec_limits().with_name_len("O".spec_bytes().len() as int),
                Some("Action".spec_bytes()),
                None,
            ),
            final(self).dict.len == old(self).dict.len + 1,
            final(self).dict.indirect == old(self).dict.indirect,
            final(self).dict.indent == old(self).dict.indent,
            final(self).dict.settings == old(self).dict.settings,
            *final(self).dict.buf == *final(r.dict.buf),
            *final(final(self).dict.buf) == *final(old(self).dict.buf),
    {
        Action::start(self.dict.insert(Name("O".as_bytes())))
    }

    /// Start writing the `/C` dictionary. This sets the action that shall
    /// be performed when the page is closed. This action applies to the page
    /// being closed and shall be executed before any other page is opened. Only
    /// permissible for [page objects](Page). PDF 1.2+.
    pub fn page_close(&mut self) -> (r: Action<'_>)
        requires
            0 <= old(self).dict.len < i32::MAX,
        ensures
            dict_started(
                r.dict,
                old(self).dict.buf@ + dict_key_bytes(
                    old(self).dict.settings.pretty,
                    old(self).dict.indent as int,
                    "C".spec_bytes(),
                ),
                false,
                old(self).dict.indent,
                old(self).dict.settings,
                Some("Action".spec_bytes()),
                None,
            ),
            r.dict.buf.spec_limits() == dict_start_limits(
                old(self).dict.buf.spec_limits().with_name_len("C".spec_bytes().len() as int),
                Some("Action".spec_bytes()),
                None,
            ),
            final(self).dict.len == old(self).dict.len + 1,
            final(self).dict.indirect == old(self).dict.indirect,
            final(self).dict.indent == old(self).dict.indent,
            final(self).dict.settings == old(self).dict.settings,
            *final(self).dict.buf == *final(r.dict.buf),
            *final(final(self).dict.buf) == *final(old(self).dict.buf),
    {
        Action::start(self.dict.insert(Name("C".as_bytes())))
    }

    /// Start writing the `/K` dictionary. This sets the JavaScript action that
    /// shall be performed when the user modifies a character in a text field
    /// or combo box or modifies the selection in a scrollable list box. This
    /// action may check the added text for validity and reject or modify it.
    /// Only permissible for form fields. PDF 1.3+.
    pub fn form_calculate_partial(&mut self) -> (r: Action<'_>)
        requires
            0 <= old(self).dict.len < i32::MAX,
        ensures
            dict_started(
                r.dict,
                old(self).dict.buf@ + dict_key_bytes(
                    old(self).dict.settings.pretty,
                    old(self).dict.indent as int,
                    "K".spec_bytes(),
                ),
                false,
                old(self).dict.indent,
                old(self).dict.settings,
                Some("Action".spec_bytes()),
                None,
            ),
            r.dict.buf.spec_limits() == dict_start_limits(
                old(self).dict.buf.spec_limits().with_name_len("K".spec_bytes().len() as int),
                Some("Action".spec_bytes()),
                None,
            ),
            final(self).dict.len == old(self).dict.len + 1,
            final(self).dict.indirect == old(self).dict.indirect,
            final(self).dict.indent == old(self).dict.indent,
            final(self).dict.settings == old(self).dict.settings,
            *final(self).dict.buf == *final(r.dict.buf),
            *final(final(self).dict.buf) == *final(old(self).dict.buf),
    {
        Action::start(self.dict.insert(Name("K".as_bytes())))
    }

    /// Start writing the `/F` dictionary. This sets the JavaScript action
    /// that shall be performed before the field is formatted to display its
    /// value. This action may modify the field's value before formatting. Only
    /// permissible for form fields. PDF 1.3+.
    pub fn form_format(&mut self) -> (r: Action<'_>)
        requires
            0 <= old(self).dict.len < i32::MAX,
        ensures
            dict_started(
                r.dict,
                old(self).dict.buf@ + dict_key_bytes(
                    old(self).dict.settings.pretty,
                    old(self).dict.indent as int,
                    "F".spec_bytes(),
                ),
                false,
                old(self).dict.indent,
                old(self).dict.settings,
                Some("Action".spec_bytes()),
                None,
            ),
            r.dict.buf.spec_limits() == dict_start_limits(
                old(self).dict.buf.spec_limits().with_name_len("F".spec_bytes().len() as int),
                Some("Action".spec_bytes()),
                None,
            ),
            final(self).dict.len == old(self).dict.len + 1,
            final(self).dict.indirect == old(self).dict.indirect,
            final(self).dict.indent == old(self).dict.indent,
            final(self).dict.settings == old(self).dict.settings,
            *final(self).dict.buf == *final(r.dict.buf),
            *final(final(self).dict.buf) == *final(old(self).dict.buf),
    {
        Action::start(self.dict.insert(Name("F".as_bytes())))
    }

    /// Start writing the `/V` dictionary. This sets the JavaScript action that
    /// shall be performed when the field's value is changed. This action may
    /// check the new value for validity. Only permissible for form fields.
    /// PDF 1.3+.
    pub fn form_validate(&mut self) -> (r: Action<'_>)
        requires
            0 <= old(self).dict.len < i32::MAX,
        ensures
            dict_started(
                r.dict,
                old(self).dict.buf@ + dict_key_bytes(
                    old(self).dict.settings.pretty,
                    old(self).dict.indent as int,
                    "V".spec_bytes(),
                ),
                false,
                old(self).dict.indent,
                old(self).dict.settings,
                Some("Action".spec_bytes()),
                None,
            ),
            r.dict.buf.spec_limits() == dict_start_limits(
                old(self).dict.buf.spec_limits().with_name_len("V".spec_bytes().len() as int),
                Some("Action".spec_bytes()),
                None,
            ),
            final(self).dict.len == old(self).dict.len + 1,
            final(self).dict.indirect == old(self).dict.indirect,
            final(self).dict.indent == old(self).dict.indent,
            final(self).dict.settings == old(self).dict.settings,
            *final(self).dict.buf == *final(r.dict.buf),
            *final(final(self).dict.buf) == *final(old(self).dict.buf),
    {
        Action::start(self.dict.insert(Name("V".as_bytes())))
    }

    /// Start writing the `/C` dictionary. This sets the JavaScript action that
    /// shall be performed to recalculate the value of this field when that
    /// of another field changes. The order in which the document's fields are
    /// recalculated shall be defined by the `/CO` entry in the interactive form
    /// dictionary. Only permissible for form fields. PDF 1.3+.
    pub fn form_calculate(&mut self) -> (r: Action<'_>)
        requires
            0 <= old(self).dict.len < i32::MAX,
        ensures
            dict_started(
                r.dict,
                old(self).dict.buf@ + dict_key_bytes(
                    old(self).dict.settings.pretty,
                    old(self).dict.indent as int,
                    "C".spec_bytes(),
                ),
                false,
                old(self).dict.indent,
                old(self).dict.settings,
                Some("Action".spec_bytes()),
                None,
            ),
            r.dict.buf.spec_limits() == dict_start_limits(
                old(self).dict.buf.spec_limits().with_name_len("C".spec_bytes().len() as int),
                Some("Action".spec_bytes()),
                None,
            ),
            final(self).dict.len == old(self).dict.len + 1,
            final(self).dict.indirect == old(self).dict.indirect,
            final(self).dict.indent == old(self).dict.indent,
            final(self).dict.settings == old(self).dict.settings,
            *final(self).dict.buf == *final(r.dict.buf),
            *final(final(self).dict.buf) == *final(old(self).dict.buf),
    {
        Action::start(self.dict.insert(Name("C".as_bytes())))
    }

    /// Start writing the `/WC` dictionary. This sets the JavaScript action
    /// that shall be performed before closing a document. Only permissible for
    /// the [document catalog](Catalog) PDF 1.4+.
    pub fn cat_before_close(&mut self) -> (r: Action<'_>)
        requires
            0 <= old(self).dict.len < i32::MAX,
        ensures
            dict_started(
                r.dict,
                old(self).dict.buf@ + dict_key_bytes(
                    old(self).dict.settings.pretty,
                    old(self).dict.indent as int,
                    "WC".spec_bytes(),
                ),
                false,
                old(self).dict.indent,
                old(self).dict.settings,
                Some("Action".spec_bytes()),
                None,
            ),
            r.dict.buf.spec_limits() == dict_start_limits(
                old(self).dict.buf.spec_limits().with_name_len("WC".spec_bytes().len() as int),
                Some("Action".spec_bytes()),
                None,
            ),
            final(self).dict.len == old(self).dict.len + 1,
            final(self).dict.indirect == old(self).dict.indirect,
            final(self).dict.indent == old(self).dict.indent,
            final(self).dict.settings == old(self).dict.settings,
            *final(self).dict.buf == *final(r.dict.buf),
            *final(final(self).dict.buf) == *final(old(self).dict.buf),
    {
        Action::start(self.dict.insert(Name("WC".as_bytes())))
    }

    /// Start writing the `/WS` dictionary. This sets the JavaScript action
    /// that shall be performed before saving a document. Only permissible for
    /// the [document catalog](Catalog) PDF 1.4+.
    pub fn cat_before_save(&mut self) -> (r: Action<'_>)
        requires
            0 <= old(self).dict.len < i32::MAX,
        ensures
            dict_started(
                r.dict,
                old(self).dict.buf@ + dict_key_bytes(
                    old(self).dict.settings.pretty,
                    old(self).dict.indent as int,
                    "WS".spec_bytes(),
                ),
                false,
                old(self).dict.indent,
                old(self).dict.settings,
                Some("Action".spec_bytes()),
                None,
            ),
            r.dict.buf.spec_limits() == dict_start_limits(
                old(self).dict.buf.spec_limits().with_name_len("WS".spec_bytes().len() as int),
                Some("Action".spec_bytes()),
                None,
            ),
            final(self).dict.len == old(self).dict.len + 1,
            final(self).dict.indirect == old(self).dict.indirect,
            final(self).dict.indent == old(self).dict.indent,
            final(self).dict.settings == old(self).dict.settings,
            *final(self).dict.buf == *final(r.dict.buf),
            *final(final(self).dict.buf) == *final(old(self).dict.buf),
    {
        Action::start(self.dict.insert(Name("WS".as_bytes())))
    }

    /// Start writing the `/DS` dictionary. This sets the JavaScript action
    /// that shall be performed after saving a document. Only permissible for
    /// the [document catalog](Catalog) PDF 1.4+.
    pub fn cat_after_save(&mut self) -> (r: Action<'_>)
        requires
            0 <= old(self).dict.len < i32::MAX,
        ensures
            dict_started(
                r.dict,
                old(self).dict.buf@ + dict_key_bytes(
                    old(self).dict.settings.pretty,
                    old(self).dict.indent as int,
                    "DS".spec_bytes(),
                ),
                false,
                old(self).dict.indent,
                old(self).dict.settings,
                Some("Action".spec_bytes()),
                None,
            ),
            r.dict.buf.spec_limits() == dict_start_limits(
                old(self).dict.buf.spec_limits().with_name_len("DS".spec_bytes().len() as int),
                Some("Action".spec_bytes()),
                None,
            ),
            final(self).dict.len == old(self).dict.len + 1,
            final(self).dict.indirect == old(self).dict.indirect,
            final(self).dict.indent == old(self).dict.indent,
            final(self).dict.settings == old(self).dict.settings,
            *final(self).dict.buf == *final(r.dict.buf),
            *final(final(self).dict.buf) == *final(old(self).dict.buf),
    {
        Action::start(self.dict.insert(Name("DS".as_bytes())))
    }

    /// Start writing the `/WP` dictionary. This sets the JavaScript action
    /// that shall be performed before printing a document. Only permissible for
    /// the [document catalog](Catalog) PDF 1.4+.
    pub fn cat_before_print(&mut self) -> (r: Action<'_>)
        requires
            0 <= old(self).dict.len < i32::MAX,
        ensures
            dict_started(
                r.dict,
                old(self).dict.buf@ + dict_key_bytes(
                    old(self).dict.settings.pretty,
                    old(self).dict.indent as int,
                    "WP".spec_bytes(),
                ),
                false,
                old(self).dict.indent,
                old(self).dict.settings,
                Some("Action".spec_bytes()),
                None,
            ),
            r.dict.buf.spec_limits() == dict_start_limits(
                old(self).dict.buf.spec_limits().with_name_len("WP".spec_bytes().len() as int),
                Some("Action".spec_bytes()),
                None,
            ),
            final(self).dict.len == old(self).dict.len + 1,
            final(self).dict.indirect == old(self).dict.indirect,
            final(self).dict.indent == old(self).dict.indent,
            final(self).dict.settings == old(self).dict.settings,
            *final(self).dict.buf == *final(r.dict.buf),
            *final(final(self).dict.buf) == *final(old(self).dict.buf),
    {
        Action::start(self.dict.insert(Name("WP".as_bytes())))
    }

    /// Start writing the `/DP` dictionary. This sets the JavaScript action
    /// that shall be performed after printing a document. Only permissible for
    /// the [document catalog](Catalog) PDF 1.4+.
    pub fn cat_after_print(&mut self) -> (r: Action<'_>)
        requires
            0 <= old(self).dict.len < i32::MAX,
        ensures
            dict_started(
                r.dict,
                old(self).dict.buf@ + dict_key_bytes(
                    old(self).dict.settings.pretty,
                    old(self).dict.indent as int,
                    "DP".spec_bytes(),
                ),
                false,
                old(self).dict.indent,
                old(self).dict.settings,
                Some("Action".spec_bytes()),
                None,
            ),
            r.dict.buf.spec_limits() == dict_start_limits(
                old(self).dict.buf.spec_limits().with_name_len("DP".spec_bytes().len() as int),
                Some("Action".spec_bytes()),
                None,
            ),
            final(self).dict.len == old(self).dict.len + 1,
            final(self).dict.indirect == old(self).dict.indirect,
            final(self).dict.indent == old(self).dict.indent,
            final(self).dict.settings == old(self).dict.settings,
            *final(self).dict.buf == *final(r.dict.buf),
            *final(final(self).dict.buf) == *final(old(self).dict.buf),
    {
        Action::start(self.dict.insert(Name("DP".as_bytes())))
    }

    /// Finish writing the dictionary.
    pub fn finish(self)
        requires
            self.dict.len >= 0,
            self.dict.indent >= 2,
        ensures
            final(self.dict.buf)@ == old(self.dict.buf)@ + dict_close_bytes(
                self.dict.len as int,
                self.dict.settings.pretty,
                self.dict.indent as int,
                self.dict.indirect,
            ),
            final(self.dict.buf).spec_limits() == old(self.dict.buf).spec_limits().with_dict_entries(self.dict.len as int),
    {
        self.dict.finish();
    }
}


/// The names under which the values of [`ActionType`] are written, as PDF
/// defines them.
pub proof fn lemma_action_type_names()
    ensures
        ActionType::GoTo.spec_name() == "GoTo".spec_bytes(),
        ActionType::RemoteGoTo.spec_name() == "GoToR".spec_bytes(),
        ActionType::Launch.spec_name() == "Launch".spec_bytes(),
        ActionType::Uri.spec_name() == "URI".spec_bytes(),
        ActionType::SubmitForm.spec_name() == "SubmitForm".spec_bytes(),
        ActionType::ResetForm.spec_name() == "ResetForm".spec_bytes(),
        ActionType::ImportData.spec_name() == "ImportData".spec_bytes(),
        ActionType::JavaScript.spec_name() == "JavaScript".spec_bytes(),
        ActionType::Rendition.spec_name() == "Rendition".spec_bytes(),
{
}

} // verus!
