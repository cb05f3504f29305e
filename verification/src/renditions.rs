use vstd::prelude::*;
use vstd::string::*;

use crate::object::{
    dict_start_limits,
    dict_entries_bytes, lemma_entries_push, name_token, nested_dict_entry_bytes, nested_indent, str_encoding, token,
    Date, Dict, LBRACKET, Name, NameTree, NumberTree, Obj, Ref, Str, Stream, TextStr, TextStrLike, TypedArray, dict_close_bytes, dict_grown, dict_items_entry_bytes, dict_key_bytes, dict_name_pair_appended, dict_pair_appended, dict_started, start_dict, stream_close_bytes, type_entries_bytes, type_stream, write_items_entry,
};
use crate::files::{FileSpec};

verus! {

/// Type of rendition objects.
#[derive(Debug, Copy, Clone, Eq, PartialEq, Hash)]
pub enum RenditionType {
    /// Media Rendition.
    Media,
    /// Selector Rendition.
    Selector,
}

impl RenditionType {
    /// The name under which the value is written.
    pub open spec fn spec_name(self) -> Seq<u8> {
        match self {
            Self::Media => "MR".spec_bytes(),
            Self::Selector => "SR".spec_bytes(),
        }
    }

    pub(crate) fn to_name(self) -> (r: Name<'static>)
        ensures
            r.0@ == self.spec_name(),
    {
        match self {
            Self::Media => Name("MR".as_bytes()),
            Self::Selector => Name("SR".as_bytes()),
        }
    }
}

/// Type of media clip objects.
#[derive(Debug, Copy, Clone, Eq, PartialEq, Hash)]
pub enum MediaClipType {
    /// Media Clip Data.
    Data,
    /// Media Clip Section.
    Section,
}

impl MediaClipType {
    /// The name under which the value is written.
    pub open spec fn spec_name(self) -> Seq<u8> {
        match self {
            Self::Data => "MCD".spec_bytes(),
            Self::Section => "MCS".spec_bytes(),
        }
    }

    pub(crate) fn to_name(self) -> (r: Name<'static>)
        ensures
            r.0@ == self.spec_name(),
    {
        match self {
            Self::Data => Name("MCD".as_bytes()),
            Self::Section => Name("MCS".as_bytes()),
        }
    }
}


/// The `/D` entry of a media clip whose data is the embedded file `id`.
pub open spec fn embedded_data_bytes(before: Seq<u8>, pretty: bool, indent: int, id: Ref) -> Seq<u8> {
    let k = dict_key_bytes(pretty, indent, "D".spec_bytes());
    let inner = nested_indent(indent as u8) as int;
    let open = before + k + "<<".spec_bytes();
    let head = dict_entries_bytes(
        open,
        pretty,
        inner,
        seq![
            ("Type".spec_bytes(), name_token("Filespec".spec_bytes())),
            ("F".spec_bytes(), (str_encoding("<embedded file>".spec_bytes()), true)),
        ],
    );
    let ef = nested_dict_entry_bytes(
        open + head,
        pretty,
        inner,
        "EF".spec_bytes(),
        seq![("F".spec_bytes(), token(id))],
    );
    k + "<<".spec_bytes() + head + ef + dict_close_bytes(3, pretty, inner, false)
}

impl MediaClip<'_> {
    /// Write the `/D` dictionary including the file specification as a link,
    /// i.e. an URL, to a given path.
    #[verifier::spinoff_prover]
    #[verifier::rlimit(40)]
    pub fn data_url(&mut self, path: Str) -> (r: &mut Self)
        requires
            0 <= old(self).dict.len < i32::MAX,
        ensures
            dict_grown(
                old(self).dict,
                r.dict,
                nested_dict_entry_bytes(
                    old(self).dict.buf@,
                    old(self).dict.settings.pretty,
                    old(self).dict.indent as int,
                    "D".spec_bytes(),
                    seq![
                        ("Type".spec_bytes(), name_token("Filespec".spec_bytes())),
                        ("FS".spec_bytes(), name_token("URL".spec_bytes())),
                        ("F".spec_bytes(), token(path)),
                    ],
                ),
                1,
            ),
            *final(r.dict.buf) == *final(old(self).dict.buf),
            *final(self) == *final(r),
    {
        let ghost before = self.dict.buf@;
        let ghost pretty = self.dict.settings.pretty;
        let ghost indent = self.dict.indent as int;
        let ghost e0 = ("Type".spec_bytes(), name_token("Filespec".spec_bytes()));
        let ghost e1 = ("FS".spec_bytes(), name_token("URL".spec_bytes()));
        let ghost e2 = ("F".spec_bytes(), token(path));
        let mut fs = self.data();
        let ghost inner = fs.dict.indent as int;
        let ghost open = before + dict_key_bytes(pretty, indent, "D".spec_bytes()) + "<<".spec_bytes();
        proof {
            lemma_entries_push(open, pretty, inner, seq![], e0);
            assert(seq![].push(e0) =~= seq![e0]);
        }
        assert(fs.dict.buf@ =~= open + dict_entries_bytes(open, pretty, inner, seq![e0]));
        fs.file_system(Name("URL".as_bytes()));
        proof {
            lemma_entries_push(open, pretty, inner, seq![e0], e1);
            assert(seq![e0].push(e1) =~= seq![e0, e1]);
        }
        assert(fs.dict.buf@ =~= open + dict_entries_bytes(open, pretty, inner, seq![e0, e1]));
        fs.path(path);
        proof {
            lemma_entries_push(open, pretty, inner, seq![e0, e1], e2);
            assert(seq![e0, e1].push(e2) =~= seq![e0, e1, e2]);
        }
        assert(fs.dict.buf@ =~= open + dict_entries_bytes(open, pretty, inner, seq![e0, e1, e2]));
        fs.finish();
        assert(self.dict.buf@ =~= before + nested_dict_entry_bytes(
            before,
            pretty,
            self.dict.indent as int,
            "D".spec_bytes(),
            seq![e0, e1, e2],
        ));
        self
    }

    /// Writing the `/D` dictionary including the file specification as
    /// embedded file referenced by a given id.
    #[verifier::spinoff_prover]
    #[verifier::rlimit(40)]
    pub fn data_embedded(&mut self, id: Ref) -> (r: &mut Self)
        requires
            0 <= old(self).dict.len < i32::MAX,
        ensures
            dict_grown(
                old(self).dict,
                r.dict,
                embedded_data_bytes(
                    old(self).dict.buf@,
                    old(self).dict.settings.pretty,
                    old(self).dict.indent as int,
                    id,
                ),
                1,
            ),
            *final(r.dict.buf) == *final(old(self).dict.buf),
            *final(self) == *final(r),
    {
        let ghost before = self.dict.buf@;
        let ghost pretty = self.dict.settings.pretty;
        let ghost indent = self.dict.indent as int;
        let ghost k = dict_key_bytes(pretty, indent, "D".spec_bytes());
        let ghost e0 = ("Type".spec_bytes(), name_token("Filespec".spec_bytes()));
        let ghost e1 = ("F".spec_bytes(), (str_encoding("<embedded file>".spec_bytes()), true));
        let mut fs = self.data();
        let ghost inner = fs.dict.indent as int;
        let ghost open = before + k + "<<".spec_bytes();
        proof {
            lemma_entries_push(open, pretty, inner, seq![], e0);
            assert(seq![].push(e0) =~= seq![e0]);
        }
        assert(fs.dict.buf@ =~= open + dict_entries_bytes(open, pretty, inner, seq![e0]));
        fs.path(Str("<embedded file>".as_bytes()));
        let ghost head = dict_entries_bytes(open, pretty, inner, seq![e0, e1]);
        proof {
            lemma_entries_push(open, pretty, inner, seq![e0], e1);
            assert(seq![e0].push(e1) =~= seq![e0, e1]);
        }
        assert(fs.dict.buf@ =~= open + head);
        let ghost ef = nested_dict_entry_bytes(
            open + head,
            pretty,
            inner,
            "EF".spec_bytes(),
            seq![("F".spec_bytes(), token(id))],
        );
        fs.embedded_file(id);
        assert(fs.dict.buf@ == open + head + ef);
        assert(fs.dict.len == 3);
        fs.finish();
        let ghost close = dict_close_bytes(3, pretty, inner, false);
        assert(self.dict.buf@ == open + head + ef + close);
        assert(embedded_data_bytes(before, pretty, indent, id) == k + "<<".spec_bytes() + head + ef
            + close);
        assert(self.dict.buf@ =~= before + embedded_data_bytes(before, pretty, indent, id));
        self
    }

    /// Write the `/TF` attribute inside the `/P` dictionary controlling the
    /// permissions to write a temporary file.
    ///
    /// The media permissions dictionary has a single entry. Thus, skip
    /// implementing a full MediaPermissions dictionary object.
    #[verifier::spinoff_prover]
    #[verifier::rlimit(40)]
    pub fn temp_file(&mut self, tf: Str) -> (r: &mut Self)
        requires
            0 <= old(self).dict.len < i32::MAX,
        ensures
            dict_grown(
                old(self).dict,
                r.dict,
                nested_dict_entry_bytes(
                    old(self).dict.buf@,
                    old(self).dict.settings.pretty,
                    old(self).dict.indent as int,
                    "P".spec_bytes(),
                    seq![
                        ("Type".spec_bytes(), name_token("MediaPermissions".spec_bytes())),
                        ("TF".spec_bytes(), token(tf)),
                    ],
                ),
                1,
            ),
            *final(r.dict.buf) == *final(old(self).dict.buf),
            *final(self) == *final(r),
    {
        let ghost before = self.dict.buf@;
        let ghost pretty = self.dict.settings.pretty;
        let ghost e0 = ("Type".spec_bytes(), name_token("MediaPermissions".spec_bytes()));
        let ghost e1 = ("TF".spec_bytes(), token(tf));
        let mut d = self.dict.insert(Name("P".as_bytes())).dict();
        let ghost open = d.buf@;
        d.pair(Name("Type".as_bytes()), Name("MediaPermissions".as_bytes()));
        proof {
            lemma_entries_push(open, pretty, d.indent as int, seq![], e0);
            assert(seq![].push(e0) =~= seq![e0]);
        }
        d.pair(Name("TF".as_bytes()), tf);
        proof {
            lemma_entries_push(open, pretty, d.indent as int, seq![e0], e1);
            assert(seq![e0].push(e1) =~= seq![e0, e1]);
        }
        d.finish();
        assert(self.dict.buf@ =~= before + nested_dict_entry_bytes(
            before,
            pretty,
            self.dict.indent as int,
            "P".spec_bytes(),
            seq![e0, e1],
        ));
        self
    }
}

impl MediaPlayParams<'_> {
    /// Write the `/C` attribute inside a `/BE` dictionary specifying whether to
    /// display a player-specific controls.
    ///
    /// This avoids implementing the "must honour" (MH) or "best effort" (BE)
    /// dictionaries for MediaPlayParams, as the required boiler-plate code
    /// would be high, and its usefulness low.
    #[verifier::spinoff_prover]
    pub fn controls(&mut self, c: bool) -> (r: &mut Self)
        requires
            0 <= old(self).dict.len < i32::MAX,
        ensures
            dict_grown(
                old(self).dict,
                r.dict,
                nested_dict_entry_bytes(
                    old(self).dict.buf@,
                    old(self).dict.settings.pretty,
                    old(self).dict.indent as int,
                    "BE".spec_bytes(),
                    seq![("C".spec_bytes(), token(c))],
                ),
                1,
            ),
            *final(r.dict.buf) == *final(old(self).dict.buf),
            *final(self) == *final(r),
    {
        let ghost before = self.dict.buf@;
        let ghost pretty = self.dict.settings.pretty;
        let ghost e0 = ("C".spec_bytes(), token(c));
        let mut d = self.dict.insert(Name("BE".as_bytes())).dict();
        let ghost open = d.buf@;
        d.pair(Name("C".as_bytes()), c);
        proof {
            lemma_entries_push(open, pretty, d.indent as int, seq![], e0);
            assert(seq![].push(e0) =~= seq![e0]);
        }
        assert(d.buf@ =~= open + dict_entries_bytes(open, pretty, d.indent as int, seq![e0]));
        d.finish();
        assert(self.dict.buf@ =~= before + nested_dict_entry_bytes(
            before,
            pretty,
            self.dict.indent as int,
            "BE".spec_bytes(),
            seq![e0],
        ));
        self
    }
}

// ---------------------------------------------------------------------------
// Writers.
// ---------------------------------------------------------------------------

/// Writer for an _rendition dictionary_.
///
/// This struct is created by [`Action::rendition`].
pub struct Rendition<'a> {
    /// The underlying dictionary.
    pub dict: Dict<'a>,
}

impl<'a> Rendition<'a> {
    /// Start writing the dictionary on an object.
    pub(crate) fn start(obj: Obj<'a>) -> (r: Self)
        ensures
            dict_started(
                r.dict,
                old(obj.buf)@,
                obj.indirect,
                obj.indent,
                obj.settings,
                Some("Rendition".spec_bytes()),
                None,
            ),
            r.dict.buf.spec_limits() == dict_start_limits(old(obj.buf).spec_limits(), Some("Rendition".spec_bytes()), None),
            *final(r.dict.buf) == *final(obj.buf),
    {
        Self { dict: start_dict(obj, Some("Rendition"), None) }
    }

    /// Write the `/S` attribute to set the rendition type.
    pub fn rendition_type(&mut self, kind: RenditionType) -> (r: &mut Self)
        requires
            0 <= old(self).dict.len < i32::MAX,
        ensures
            dict_name_pair_appended(old(self).dict, r.dict, "S".spec_bytes(), kind.spec_name()),
            *final(r.dict.buf) == *final(old(self).dict.buf),
            *final(self) == *final(r),
    {
        self.dict.pair(Name("S".as_bytes()), kind.to_name());
        self
    }

    /// Start writing the `/C`, i.e. media clip, dictionary which specifies what
    /// media should be played. Only permissible for Media Renditions.
    pub fn media_clip(&mut self) -> (r: MediaClip<'_>)
        requires
            0 <= old(self).dict.len < i32::MAX,
        ensures
            dict_started(
                r.dict,
                old(self).dict.buf@ + dict_key_bytes(
                    old(self).dict.settings.pretty,
                    old(self).dict.indent as int,
                    "C".spec_bytes(),
                ),
                false,
                old(self).dict.indent,
                old(self).dict.settings,
                Some("MediaClip".spec_bytes()),
                None,
            ),
            r.dict.buf.spec_limits() == dict_start_limits(
                old(self).dict.buf.spec_limits().with_name_len("C".spec_bytes().len() as int),
                Some("MediaClip".spec_bytes()),
                None,
            ),
            final(self).dict.len == old(self).dict.len + 1,
            final(self).dict.indirect == old(self).dict.indirect,
            final(self).dict.indent == old(self).dict.indent,
            final(self).dict.settings == old(self).dict.settings,
            *final(self).dict.buf == *final(r.dict.buf),
            *final(final(self).dict.buf) == *final(old(self).dict.buf),
    {
        MediaClip::start(self.dict.insert(Name("C".as_bytes())))
    }

    /// Start writing the `/P`, i.e. media play parameters, dictionary which
    /// specifies how the media should be played. Only permissible for Media
    /// Renditions.
    pub fn media_play_params(&mut self) -> (r: MediaPlayParams<'_>)
        requires
            0 <= old(self).dict.len < i32::MAX,
        ensures
            dict_started(
                r.dict,
                old(self).dict.buf@ + dict_key_bytes(
                    old(self).dict.settings.pretty,
                    old(self).dict.indent as int,
                    "P".spec_bytes(),
                ),
                false,
                old(self).dict.indent,
                old(self).dict.settings,
                Some("MediaPlayParams".spec_bytes()),
                None,
            ),
            r.dict.buf.spec_limits() == dict_start_limits(
                old(self).dict.buf.spec_limits().with_name_len("P".spec_bytes().len() as int),
                Some("MediaPlayParams".spec_bytes()),
                None,
            ),
            final(self).dict.len == old(self).dict.len + 1,
            final(self).dict.indirect == old(self).dict.indirect,
            final(self).dict.indent == old(self).dict.indent,
            final(self).dict.settings == old(self).dict.settings,
            *final(self).dict.buf == *final(r.dict.buf),
            *final(final(self).dict.buf) == *final(old(self).dict.buf),
    {
        MediaPlayParams::start(self.dict.insert(Name("P".as_bytes())))
    }

    /// Finish writing the dictionary.
    pub fn finish(self)
        requires
            self.dict.len >= 0,
            self.dict.indent >= 2,
        ensures
            final(self.dict.buf)@ == old(self.dict.buf)@ + dict_close_bytes(
                self.dict.len as int,
                self.dict.settings.pretty,
                self.dict.indent as int,
                self.dict.indirect,
            ),
            final(self.dict.buf).spec_limits() == old(self.dict.buf).spec_limits().with_dict_entries(self.dict.len as int),
    {
        self.dict.finish();
    }
}

/// Writer for an _media clip dictionary_.
///
/// This struct is created by [`Rendition::media_clip`].
pub struct MediaClip<'a> {
    /// The underlying dictionary.
    pub dict: Dict<'a>,
}

impl<'a> MediaClip<'a> {
    /// Start writing the dictionary on an object.
    pub(crate) fn start(obj: Obj<'a>) -> (r: Self)
        ensures
            dict_started(
                r.dict,
                old(obj.buf)@,
                obj.indirect,
                obj.indent,
                obj.settings,
                Some("MediaClip".spec_bytes()),
                None,
            ),
            r.dict.buf.spec_limits() == dict_start_limits(old(obj.buf).spec_limits(), Some("MediaClip".spec_bytes()), None),
            *final(r.dict.buf) == *final(obj.buf),
    {
        Self { dict: start_dict(obj, Some("MediaClip"), None) }
    }

    /// Write the `/S` attribute to set the media clip type.
    pub fn media_clip_type(&mut self, kind: MediaClipType) -> (r: &mut Self)
        requires
            0 <= old(self).dict.len < i32::MAX,
        ensures
            dict_name_pair_appended(old(self).dict, r.dict, "S".spec_bytes(), kind.spec_name()),
            *final(r.dict.buf) == *final(old(self).dict.buf),
            *final(self) == *final(r),
    {
        self.dict.pair(Name("S".as_bytes()), kind.to_name());
        self
    }

    /// Start writing the `/D` dictionary specifying the media data.
    pub fn data(&mut self) -> (r: FileSpec<'_>)
        requires
            0 <= old(self).dict.len < i32::MAX,
        ensures
            dict_started(
                r.dict,
                old(self).dict.buf@ + dict_key_bytes(
                    old(self).dict.settings.pretty,
                    old(self).dict.indent as int,
                    "D".spec_bytes(),
                ),
                false,
                old(self).dict.indent,
                old(self).dict.settings,
                Some("Filespec".spec_bytes()),
                None,
            ),
            r.dict.buf.spec_limits() == dict_start_limits(
                old(self).dict.buf.spec_limits().with_name_len("D".spec_bytes().len() as int),
                Some("Filespec".spec_bytes()),
                None,
            ),
            final(self).dict.len == old(self).dict.len + 1,
            final(self).dict.indirect == old(self).dict.indirect,
            final(self).dict.indent == old(self).dict.indent,
            final(self).dict.settings == old(self).dict.settings,
            *final(self).dict.buf == *final(r.dict.buf),
            *final(final(self).dict.buf) == *final(old(self).dict.buf),
    {
        FileSpec::start(self.dict.insert(Name("D".as_bytes())))
    }

    /// Write the `/CT` attribute identifying the type of data in D, i.e. the
    /// MIME type.
    pub fn data_type(&mut self, tf: Str) -> (r: &mut Self)
        requires
            0 <= old(self).dict.len < i32::MAX,
        ensures
            dict_pair_appended(old(self).dict, r.dict, "CT".spec_bytes(), tf),
            *final(r.dict.buf) == *final(old(self).dict.buf),
            *final(self) == *final(r),
    {
        self.dict.pair(Name("CT".as_bytes()), tf);
        self
    }

    /// Finish writing the dictionary.
    pub fn finish(self)
        requires
            self.dict.len >= 0,
            self.dict.indent >= 2,
        ensures
            final(self.dict.buf)@ == old(self.dict.buf)@ + dict_close_bytes(
                self.dict.len as int,
                self.dict.settings.pretty,
                self.dict.indent as int,
                self.dict.indirect,
            ),
            final(self.dict.buf).spec_limits() == old(self.dict.buf).spec_limits().with_dict_entries(self.dict.len as int),
    {
        self.dict.finish();
    }
}

/// Writer for an _media play parameters dictionary_.
///
/// This struct is created by [`Rendition::media_play_params`].
pub struct MediaPlayParams<'a> {
    /// The underlying dictionary.
    pub dict: Dict<'a>,
}

impl<'a> MediaPlayParams<'a> {
    /// Start writing the dictionary on an object.
    pub(crate) fn start(obj: Obj<'a>) -> (r: Self)
        ensures
            dict_started(
                r.dict,
                old(obj.buf)@,
                obj.indirect,
                obj.indent,
                obj.settings,
                Some("MediaPlayParams".spec_bytes()),
                None,
            ),
            r.dict.buf.spec_limits() == dict_start_limits(old(obj.buf).spec_limits(), Some("MediaPlayParams".spec_bytes()), None),
            *final(r.dict.buf) == *final(obj.buf),
    {
        Self { dict: start_dict(obj, Some("MediaPlayParams"), None) }
    }

    /// Finish writing the dictionary.
    pub fn finish(self)
        requires
            self.dict.len >= 0,
            self.dict.indent >= 2,
        ensures
            final(self.dict.buf)@ == old(self.dict.buf)@ + dict_close_bytes(
                self.dict.len as int,
                self.dict.settings.pretty,
                self.dict.indent as int,
                self.dict.indirect,
            ),
            final(self.dict.buf).spec_limits() == old(self.dict.buf).spec_limits().with_dict_entries(self.dict.len as int),
    {
        self.dict.finish();
    }
}


/// The names under which the values of [`RenditionType`] are written, as PDF
/// defines them.
pub proof fn lemma_rendition_type_names()
    ensures
        RenditionType::Media.spec_name() == "MR".spec_bytes(),
        RenditionType::Selector.spec_name() == "SR".spec_bytes(),
{
}

/// The names under which the values of [`MediaClipType`] are written, as PDF
/// defines them.
pub proof fn lemma_media_clip_type_names()
    ensures
        MediaClipType::Data.spec_name() == "MCD".spec_bytes(),
        MediaClipType::Section.spec_name() == "MCS".spec_bytes(),
{
}

} // verus!
