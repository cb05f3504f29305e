use vstd::prelude::*;
use vstd::string::*;

use crate::object::{
    dict_start_limits,
    lemma_entries_push, nested_dict_entry_bytes, token,
    array_separator, Date, Dict, LBRACKET, Name, NameTree, NumberTree, Obj, Ref, Str, Stream, TextStr, TextStrLike, TypedArray, dict_close_bytes, dict_grown, dict_items_entry_bytes, dict_key_bytes, dict_name_pair_appended, dict_pair_appended, dict_started, start_dict, stream_close_bytes, type_entries_bytes, type_stream, write_items_entry,
};

verus! {

impl<'a, 'b> TypedArray<'a, FileSpec<'b>> {
    /// Start writing a file specification as the next item.
    pub fn push(&mut self) -> (r: FileSpec<'_>)
        requires
            0 <= old(self).array.len < i32::MAX,
        ensures
            dict_started(
                r.dict,
                old(self).array.buf@ + array_separator(
                    old(self).array.len as int,
                    old(self).array.settings.pretty,
                ),
                false,
                old(self).array.indent,
                old(self).array.settings,
                Some("Filespec".spec_bytes()),
                None,
            ),
            r.dict.buf.spec_limits() == dict_start_limits(
                old(self).array.buf.spec_limits(),
                Some("Filespec".spec_bytes()),
                None,
            ),
            final(self).array.len == old(self).array.len + 1,
            final(self).array.indirect == old(self).array.indirect,
            final(self).array.indent == old(self).array.indent,
            final(self).array.settings == old(self).array.settings,
            *final(self).array.buf == *final(r.dict.buf),
            *final(final(self).array.buf) == *final(old(self).array.buf),
    {
        FileSpec::start(self.array.push())
    }
}

impl FileSpec<'_> {
    /// Write the `/EF` attribute to reference an [embedded file](EmbeddedFile).
    /// PDF 1.3+.
    ///
    /// This only sets an embedded file for the `F` attribute corresponding to
    /// the [`path`](Self::path) method. You will need to write this dictionary
    /// manually if you need to set `UF`.
    pub fn embedded_file(&mut self, id: Ref) -> (r: &mut Self)
        requires
            0 <= old(self).dict.len < i32::MAX,
        ensures
            dict_grown(
                old(self).dict,
                r.dict,
                nested_dict_entry_bytes(
                    old(self).dict.buf@,
                    old(self).dict.settings.pretty,
                    old(self).dict.indent as int,
                    "EF".spec_bytes(),
                    seq![("F".spec_bytes(), token(id))],
                ),
                1,
            ),
            *final(r.dict.buf) == *final(old(self).dict.buf),
            *final(self) == *final(r),
    {
        let ghost before = self.dict.buf@;
        let ghost pretty = self.dict.settings.pretty;
        let ghost e0 = ("F".spec_bytes(), token(id));
        let mut d = self.dict.insert(Name("EF".as_bytes())).dict();
        let ghost open = d.buf@;
        d.pair(Name("F".as_bytes()), id);
        proof {
            lemma_entries_push(open, pretty, d.indent as int, seq![], e0);
            assert(seq![].push(e0) =~= seq![e0]);
        }
        d.finish();
        assert(self.dict.buf@ =~= before + nested_dict_entry_bytes(
            before,
            pretty,
            self.dict.indent as int,
            "EF".spec_bytes(),
            seq![e0],
        ));
        self
    }
}

// ---------------------------------------------------------------------------
// Writers.
// ---------------------------------------------------------------------------

/// Writer for a _file specification dictionary_.
///
/// This struct is created by [`Annotation::file_spec`],
/// [`Reference::file_spec`], and [`Action::file_spec`].
pub struct FileSpec<'a> {
    /// The underlying dictionary.
    pub dict: Dict<'a>,
}

impl<'a> FileSpec<'a> {
    /// Start writing the dictionary on an object.
    pub(crate) fn start(obj: Obj<'a>) -> (r: Self)
        ensures
            dict_started(
                r.dict,
                old(obj.buf)@,
                obj.indirect,
                obj.indent,
                obj.settings,
                Some("Filespec".spec_bytes()),
                None,
            ),
            r.dict.buf.spec_limits() == dict_start_limits(old(obj.buf).spec_limits(), Some("Filespec".spec_bytes()), None),
            *final(r.dict.buf) == *final(obj.buf),
    {
        Self { dict: start_dict(obj, Some("Filespec"), None) }
    }

    /// Write the `/FS` attribute to set the file system this entry relates to.
    /// If you set the `system` argument to `Name(b"URL")`, this becomes an URL
    /// specification.
    pub fn file_system(&mut self, system: Name) -> (r: &mut Self)
        requires
            0 <= old(self).dict.len < i32::MAX,
        ensures
            dict_pair_appended(old(self).dict, r.dict, "FS".spec_bytes(), system),
            *final(r.dict.buf) == *final(old(self).dict.buf),
            *final(self) == *final(r),
    {
        self.dict.pair(Name("FS".as_bytes()), system);
        self
    }

    /// Write the `/F` attribute to set the file path. Directories are indicated
    /// by `/`, independent of the platform.
    pub fn path(&mut self, path: Str) -> (r: &mut Self)
        requires
            0 <= old(self).dict.len < i32::MAX,
        ensures
            dict_pair_appended(old(self).dict, r.dict, "F".spec_bytes(), path),
            *final(r.dict.buf) == *final(old(self).dict.buf),
            *final(self) == *final(r),
    {
        self.dict.pair(Name("F".as_bytes()), path);
        self
    }

    /// Write the `/UF` attribute to set a Unicode-compatible path. Directories
    /// are indicated by `/`, independent of the platform. PDF 1.7+.
    pub fn unic_file(&mut self, path: TextStr) -> (r: &mut Self)
        requires
            0 <= old(self).dict.len < i32::MAX,
        ensures
            dict_pair_appended(old(self).dict, r.dict, "UF".spec_bytes(), path),
            *final(r.dict.buf) == *final(old(self).dict.buf),
            *final(self) == *final(r),
    {
        self.dict.pair(Name("UF".as_bytes()), path);
        self
    }

    /// Write the `/V` attribute to indicate whether _not_ to cache the file.
    pub fn volatile(&mut self, dont_cache: bool) -> (r: &mut Self)
        requires
            0 <= old(self).dict.len < i32::MAX,
        ensures
            dict_pair_appended(old(self).dict, r.dict, "V".spec_bytes(), dont_cache),
            *final(r.dict.buf) == *final(old(self).dict.buf),
            *final(self) == *final(r),
    {
        self.dict.pair(Name("V".as_bytes()), dont_cache);
        self
    }

    /// Write the `/Desc` attribute to set a file description. PDF 1.6+.
    pub fn description(&mut self, desc: TextStr) -> (r: &mut Self)
        requires
            0 <= old(self).dict.len < i32::MAX,
        ensures
            dict_pair_appended(old(self).dict, r.dict, "Desc".spec_bytes(), desc),
            *final(r.dict.buf) == *final(old(self).dict.buf),
            *final(self) == *final(r),
    {
        self.dict.pair(Name("Desc".as_bytes()), desc);
        self
    }

    /// Finish writing the dictionary.
    pub fn finish(self)
        requires
            self.dict.len >= 0,
            self.dict.indent >= 2,
        ensures
            final(self.dict.buf)@ == old(self.dict.buf)@ + dict_close_bytes(
                self.dict.len as int,
                self.dict.settings.pretty,
                self.dict.indent as int,
                self.dict.indirect,
            ),
            final(self.dict.buf).spec_limits() == old(self.dict.buf).spec_limits().with_dict_entries(self.dict.len as int),
    {
        self.dict.finish();
    }
}

/// Writer for an _embedded file parameter dictionary_.
///
/// This struct is created by [`EmbeddedFile::params`].
pub struct EmbeddingParams<'a> {
    /// The underlying dictionary.
    pub dict: Dict<'a>,
}

impl<'a> EmbeddingParams<'a> {
    /// Start writing the dictionary on an object.
    pub(crate) fn start(obj: Obj<'a>) -> (r: Self)
        ensures
            dict_started(
                r.dict,
                old(obj.buf)@,
                obj.indirect,
                obj.indent,
                obj.settings,
                None,
                None,
            ),
            r.dict.buf.spec_limits() == dict_start_limits(old(obj.buf).spec_limits(), None, None),
            *final(r.dict.buf) == *final(obj.buf),
    {
        Self { dict: start_dict(obj, None, None) }
    }

    /// Write the `/Size` attribute to set the uncompressed file size in bytes.
    pub fn size(&mut self, size: i32) -> (r: &mut Self)
        requires
            0 <= old(self).dict.len < i32::MAX,
            size != i32::MIN,
        ensures
            dict_pair_appended(old(self).dict, r.dict, "Size".spec_bytes(), size),
            *final(r.dict.buf) == *final(old(self).dict.buf),
            *final(self) == *final(r),
    {
        self.dict.pair(Name("Size".as_bytes()), size);
        self
    }

    /// Write the `/CreationDate` attribute to set the file creation date.
    pub fn creation_date(&mut self, date: Date) -> (r: &mut Self)
        requires
            0 <= old(self).dict.len < i32::MAX,
        ensures
            dict_pair_appended(old(self).dict, r.dict, "CreationDate".spec_bytes(), date),
            *final(r.dict.buf) == *final(old(self).dict.buf),
            *final(self) == *final(r),
    {
        self.dict.pair(Name("CreationDate".as_bytes()), date);
        self
    }

    /// Write the `/ModDate` attribute to set the file modification date.
    pub fn modification_date(&mut self, date: Date) -> (r: &mut Self)
        requires
            0 <= old(self).dict.len < i32::MAX,
        ensures
            dict_pair_appended(old(self).dict, r.dict, "ModDate".spec_bytes(), date),
            *final(r.dict.buf) == *final(old(self).dict.buf),
            *final(self) == *final(r),
    {
        self.dict.pair(Name("ModDate".as_bytes()), date);
        self
    }

    /// Write the `/CheckSum` attribute to set the file checksum.
    ///
    /// The checksum shall be a 16-byte MD5 string.
    pub fn checksum(&mut self, checksum: Str) -> (r: &mut Self)
        requires
            0 <= old(self).dict.len < i32::MAX,
        ensures
            dict_pair_appended(old(self).dict, r.dict, "CheckSum".spec_bytes(), checksum),
            *final(r.dict.buf) == *final(old(self).dict.buf),
            *final(self) == *final(r),
    {
        self.dict.pair(Name("CheckSum".as_bytes()), checksum);
        self
    }

    /// Finish writing the dictionary.
    pub fn finish(self)
        requires
            self.dict.len >= 0,
            self.dict.indent >= 2,
        ensures
            final(self.dict.buf)@ == old(self.dict.buf)@ + dict_close_bytes(
                self.dict.len as int,
                self.dict.settings.pretty,
                self.dict.indent as int,
                self.dict.indirect,
            ),
            final(self.dict.buf).spec_limits() == old(self.dict.buf).spec_limits().with_dict_entries(self.dict.len as int),
    {
        self.dict.finish();
    }
}

/// Writer for an _embedded file stream_.
///
/// This struct is created by [`PdfWriter::embedded_file`].
pub struct EmbeddedFile<'a> {
    /// The underlying stream.
    pub stream: Stream<'a>,
}

impl<'a> EmbeddedFile<'a> {
    /// Start writing the stream's dictionary entries.
    pub(crate) fn start(stream: Stream<'a>) -> (r: Self)
        requires
            0 <= stream.dict.len < i32::MAX - 2,
        ensures
            r.stream.dict.buf@ == old(stream.dict.buf)@ + type_entries_bytes(
                old(stream.dict.buf)@,
                stream.dict.settings.pretty,
                stream.dict.indent as int,
                Some("EmbeddedFile".spec_bytes()),
                None,
            ),
            r.stream.dict.len == stream.dict.len + 1,
            r.stream.dict.indirect == stream.dict.indirect,
            r.stream.dict.indent == stream.dict.indent,
            r.stream.dict.settings == stream.dict.settings,
            r.stream.data == stream.data,
            *final(r.stream.dict.buf) == *final(stream.dict.buf),
            r.stream.dict.buf.spec_limits() == dict_start_limits(
                old(stream.dict.buf).spec_limits(),
                Some("EmbeddedFile".spec_bytes()),
                None,
            ),
    {
        Self { stream: type_stream(stream, Some("EmbeddedFile"), None) }
    }

    /// Write the `/Subtype` attribute to set the file type.
    ///
    /// This can either be a MIME type or a name prefixed by a first class PDF
    /// prefix. Note that special characters must be encoded as described in
    /// section 7.3.5 of the PDF 1.7 specification, e.g. `image/svg+xml` would
    /// become `Name(b"image#2Fsvg+xml")`.
    pub fn subtype(&mut self, subtype: Name) -> (r: &mut Self)
        requires
            0 <= old(self).stream.dict.len < i32::MAX,
        ensures
            dict_pair_appended(old(self).stream.dict, r.stream.dict, "Subtype".spec_bytes(), subtype),
            r.stream.data == old(self).stream.data,
            *final(r.stream.dict.buf) == *final(old(self).stream.dict.buf),
            *final(self) == *final(r),
    {
        self.stream.dict.pair(Name("Subtype".as_bytes()), subtype);
        self
    }

    /// Start writing the `/Params` dictionary.
    pub fn params(&mut self) -> (r: EmbeddingParams<'_>)
        requires
            0 <= old(self).stream.dict.len < i32::MAX,
        ensures
            dict_started(
                r.dict,
                old(self).stream.dict.buf@ + dict_key_bytes(
                    old(self).stream.dict.settings.pretty,
                    old(self).stream.dict.indent as int,
                    "Params".spec_bytes(),
                ),
                false,
                old(self).stream.dict.indent,
                old(self).stream.dict.settings,
                None,
                None,
            ),
            r.dict.buf.spec_limits() == dict_start_limits(
                old(self).stream.dict.buf.spec_limits().with_name_len("Params".spec_bytes().len() as int),
                None,
                None,
            ),
            final(self).stream.dict.len == old(self).stream.dict.len + 1,
            final(self).stream.dict.indirect == old(self).stream.dict.indirect,
            final(self).stream.dict.indent == old(self).stream.dict.indent,
            final(self).stream.dict.settings == old(self).stream.dict.settings,
            final(self).stream.data == old(self).stream.data,
            *final(self).stream.dict.buf == *final(r.dict.buf),
            *final(final(self).stream.dict.buf) == *final(old(self).stream.dict.buf),
    {
        EmbeddingParams::start(self.stream.dict.insert(Name("Params".as_bytes())))
    }

    /// Finish the stream: close its dictionary, write its data and close the
    /// object.
    pub fn finish(self)
        requires
            self.stream.dict.len >= 0,
        ensures
            final(self.stream.dict.buf)@ == old(self.stream.dict.buf)@ + stream_close_bytes(
                self.stream.dict.settings.pretty,
                self.stream.data@,
            ),
            final(self.stream.dict.buf).spec_limits() == old(self.stream.dict.buf).spec_limits().with_dict_entries(self.stream.dict.len as int),
    {
        self.stream.finish();
    }
}

} // verus!
