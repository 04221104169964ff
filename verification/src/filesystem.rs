//! File naming and result bookkeeping for the conversion pipeline.

use vstd::prelude::*;
use crate::error::ConversionError;
use crate::models::{ConversionInput, ConversionResult, FileType, classify_path};
use crate::paths::{file_name, file_stem, parent, join, path_file_name, path_file_stem, path_parent, path_join, slice_vec};
use crate::text::{chars_of, string_from_chars, is_alphanumeric, is_whitespace, unicode_alphanumeric, unicode_whitespace, str_eq};

verus! {

/// What a character of a file stem becomes: kept when alphanumeric or one of
/// `-`, `_`, `.`; `_` when whitespace; dropped otherwise.
pub open spec fn stem_char(c: char) -> Option<char> {
    if unicode_alphanumeric(c) || c == '-' || c == '_' || c == '.' {
        Some(c)
    } else if unicode_whitespace(c) {
        Some('_')
    } else {
        None
    }
}

/// All characters of `s` passed through `stem_char`.
pub open spec fn sanitize_all(s: Seq<char>) -> Seq<char>
    decreases s.len(),
{
    if s.len() == 0 {
        Seq::empty()
    } else {
        sanitize_all(s.drop_last()) + match stem_char(s.last()) {
            Some(c) => seq![c],
            None => Seq::empty(),
        }
    }
}

/// Longest sanitized stem kept.
pub const MAX_STEM_CHARS: usize = 200;

/// The sanitized stem of a file name: the stem's characters passed through
/// `stem_char`, at most 200 of them, or `unnamed_file` when none is left.
pub open spec fn sanitized_stem(filename: Seq<char>) -> Seq<char> {
    let stem = match file_stem(filename) {
        Some(s) => s,
        None => filename,
    };
    let all = sanitize_all(stem);
    let kept = if all.len() > 200 { all.take(200) } else { all };
    if kept.len() == 0 {
        "unnamed_file"@
    } else {
        kept
    }
}

/// A character a sanitized stem may hold: alphanumeric, `-`, `_` or `.`.
pub open spec fn safe_stem_char(c: char) -> bool {
    unicode_alphanumeric(c) || c == '-' || c == '_' || c == '.'
}

proof fn lemma_sanitize_all_safe(s: Seq<char>)
    ensures
        sanitize_all(s).len() <= s.len(),
        forall|i: int| 0 <= i < sanitize_all(s).len() ==> safe_stem_char(#[trigger] sanitize_all(s)[i]),
    decreases s.len(),
{
    if s.len() > 0 {
        lemma_sanitize_all_safe(s.drop_last());
        let before = sanitize_all(s.drop_last());
        let tail: Seq<char> = match stem_char(s.last()) {
            Some(c) => seq![c],
            None => Seq::empty(),
        };
        assert(sanitize_all(s) == before + tail);
        assert forall|i: int| 0 <= i < sanitize_all(s).len() implies safe_stem_char(#[trigger] sanitize_all(s)[i]) by {
            if i >= before.len() {
                assert(sanitize_all(s)[i] == tail[i - before.len()]);
            } else {
                assert(sanitize_all(s)[i] == before[i]);
            }
        }
    }
}

/// A sanitized stem is safe to use as a file name: it is never empty, has
/// at most 200 characters, and is either the fallback `unnamed_file` or made
/// only of alphanumeric characters, `-`, `_` and `.` (so it holds no path
/// separator or other special character).
pub proof fn lemma_sanitized_stem_is_safe(filename: Seq<char>)
    ensures
        0 < sanitized_stem(filename).len() <= 200,
        sanitized_stem(filename) == "unnamed_file"@ || forall|i: int| 0 <= i < sanitized_stem(filename).len()
            ==> safe_stem_char(#[trigger] sanitized_stem(filename)[i]),
{
    reveal_strlit("unnamed_file");
    let stem = match file_stem(filename) {
        Some(s) => s,
        None => filename,
    };
    lemma_sanitize_all_safe(stem);
    let all = sanitize_all(stem);
    if all.len() > 200 {
        assert forall|i: int| 0 <= i < all.take(200).len() implies safe_stem_char(#[trigger] all.take(200)[i]) by {
            assert(all.take(200)[i] == all[i]);
        }
    }
}

/// Sanitizing keeps every alphanumeric character and every `-`, `_` and `.`
/// in place: a stem made only of them comes back unchanged.
pub proof fn lemma_sanitize_keeps_allowed(s: Seq<char>)
    requires
        forall|i: int| 0 <= i < s.len() ==> unicode_alphanumeric(#[trigger] s[i]) || s[i] == '-' || s[i] == '_' || s[i] == '.',
    ensures
        sanitize_all(s) == s,
    decreases s.len(),
{
    if s.len() > 0 {
        lemma_sanitize_keeps_allowed(s.drop_last());
        assert(s.last() == s[s.len() - 1]);
        assert(s.drop_last().push(s.last()) =~= s);
    }
}

/// Sanitizing works character by character: appending a character appends
/// the character itself when it is alphanumeric or one of `-`, `_`, `.`; an
/// `_` for other whitespace; and nothing for anything else.
pub proof fn lemma_sanitize_append(s: Seq<char>, c: char)
    ensures
        (unicode_alphanumeric(c) || c == '-' || c == '_' || c == '.') ==> sanitize_all(s.push(c)) == sanitize_all(s).push(c),
        !(unicode_alphanumeric(c) || c == '-' || c == '_' || c == '.') && unicode_whitespace(c)
            ==> sanitize_all(s.push(c)) == sanitize_all(s).push('_'),
        !(unicode_alphanumeric(c) || c == '-' || c == '_' || c == '.') && !unicode_whitespace(c)
            ==> sanitize_all(s.push(c)) == sanitize_all(s),
{
    assert(s.push(c).drop_last() =~= s);
    assert(s.push(c).last() == c);
}

/// A file whose stem is non-empty, at most 200 characters long and made only
/// of alphanumeric characters, `-`, `_` and `.` keeps that stem exactly.
pub proof fn lemma_sanitized_stem_keeps_clean_stems(filename: Seq<char>, stem: Seq<char>)
    requires
        file_stem(filename) == Some(stem),
        0 < stem.len() <= 200,
        forall|i: int| 0 <= i < stem.len() ==> unicode_alphanumeric(#[trigger] stem[i]) || stem[i] == '-' || stem[i] == '_' || stem[i] == '.',
    ensures
        sanitized_stem(filename) == stem,
{
    lemma_sanitize_keeps_allowed(stem);
}

/// The file name of a path, or `unknown_file` when it has none.
pub open spec fn filename_or_unknown(p: Seq<char>) -> Seq<char> {
    match file_name(p) {
        Some(n) => n,
        None => "unknown_file"@,
    }
}

/// `s` without its leading dots.
pub open spec fn trim_leading_dots(s: Seq<char>) -> Seq<char>
    decreases s.len(),
{
    if s.len() > 0 && s[0] == '.' {
        trim_leading_dots(s.drop_first())
    } else {
        s
    }
}

/// A name built from a stem, a unique token and an extension:
/// `stem__token.extension`.
pub open spec fn unique_name(stem: Seq<char>, token: Seq<char>, extension: Seq<char>) -> Seq<char> {
    stem + "__"@ + token + "."@ + trim_leading_dots(extension)
}

/// A lowercase hexadecimal digit.
pub open spec fn is_lower_hex(c: char) -> bool {
    ('0' <= c && c <= '9') || ('a' <= c && c <= 'f')
}

/// A fresh time-ordered UUID written as 32 lowercase hexadecimal digits.
///
/// Trusted: calls `uuid::Uuid::now_v7` and formats it with `simple()`, which
/// the uuid source writes as two lowercase hex digits per byte of the 16.
/// Which UUID comes back depends on the clock and on chance, and is not stated.
#[verifier::external_body]
pub(crate) fn fresh_token() -> (r: String)
    ensures
        r@.len() == 32,
        forall|i: int| 0 <= i < 32 ==> is_lower_hex(#[trigger] r@[i]),
{
    uuid::Uuid::now_v7().simple().to_string()
}

/// What a directory scan does with one entry.
#[derive(Debug, Clone, Copy, PartialEq, Eq, Structural)]
pub enum ScanDecision {
    /// A supported file: keep it.
    Keep,
    /// A directory to scan as well.
    Descend,
    /// Anything else.
    Ignore,
}

/// Filesystem utility functions.
pub struct FsUtils;

impl FsUtils {
    /// Maximum files in a ZIP archive.
    pub const MAX_ZIP_FILES: usize = 10_000;

    /// Maximum total extracted size (10 GB).
    pub const MAX_EXTRACTED_SIZE: u64 = 10 * 1024 * 1024 * 1024;

    /// Extract filename as String; returns `"unknown_file"` for paths without one.
    pub fn extract_filename_str(path: &str) -> (r: String)
        ensures
            r@ == filename_or_unknown(path@),
    {
        match path_file_name(path) {
            Some(n) => n,
            None => "unknown_file".to_owned(),
        }
    }

    /// Sanitize a filename stem for safe filesystem usage.
    pub fn sanitize_stem(filename: &str) -> (r: String)
        ensures
            r@ == sanitized_stem(filename@),
    {
        let stem = match path_file_stem(filename) {
            Some(s) => s,
            None => filename.to_owned(),
        };
        let v = chars_of(stem.as_str());
        let mut out: Vec<char> = Vec::new();
        let mut i: usize = 0;
        while i < v.len()
            invariant
                i <= v@.len(),
                out@ == sanitize_all(v@.take(i as int)),
            decreases v@.len() - i,
        {
            let c = v[i];
            let ghost before = out@;
            if is_alphanumeric(c) || c == '-' || c == '_' || c == '.' {
                out.push(c);
            } else if is_whitespace(c) {
                out.push('_');
            }
            assert(v@.take(i + 1).drop_last() =~= v@.take(i as int));
            assert(out@ =~= sanitize_all(v@.take(i + 1)));
            i = i + 1;
        }
        assert(v@.take(v@.len() as int) =~= v@);
        let kept = if out.len() > MAX_STEM_CHARS {
            slice_vec(out.as_slice(), 0, MAX_STEM_CHARS)
        } else {
            out
        };
        if kept.len() == 0 {
            "unnamed_file".to_owned()
        } else {
            string_from_chars(kept.as_slice())
        }
    }

    /// The name `stem__token.extension` for an original name, a token and an extension.
    pub fn unique_filename_with(original_name: &str, token: &str, extension: &str) -> (r: String)
        ensures
            r@ == unique_name(sanitized_stem(original_name@), token@, extension@),
    {
        let stem = Self::sanitize_stem(original_name);
        let ev = chars_of(extension);
        let mut k: usize = 0;
        assert(ev@.subrange(0, ev@.len() as int) =~= ev@);
        while k < ev.len() && ev[k] == '.'
            invariant
                k <= ev@.len(),
                trim_leading_dots(ev@) == trim_leading_dots(ev@.subrange(k as int, ev@.len() as int)),
            decreases ev@.len() - k,
        {
            assert(ev@.subrange(k as int, ev@.len() as int).drop_first() =~= ev@.subrange(
                k + 1,
                ev@.len() as int,
            ));
            k = k + 1;
        }
        assert(ev@.subrange(0, ev@.len() as int) =~= ev@);
        let ext = slice_vec(ev.as_slice(), k, ev.len());
        let ext_s = string_from_chars(ext.as_slice());
        let mut r = stem;
        r.append("__");
        r.append(token);
        r.append(".");
        r.append(ext_s.as_str());
        r
    }

    /// Generate a unique filename: `[SanitizedStem]__[UUIDv7].[Extension]`.
    pub fn generate_unique_filename(original_name: &str, extension: &str) -> (r: String)
        ensures
            exists|token: Seq<char>| token.len() == 32 && r@ == unique_name(
                sanitized_stem(original_name@),
                token,
                extension@,
            ),
    {
        let token = fresh_token();
        Self::unique_filename_with(original_name, token.as_str(), extension)
    }

    /// Find the primary input by file name.
    pub fn find_primary_input<'a>(inputs: &'a Vec<ConversionInput>, primary_name: Option<&str>) -> (r: Result<
        &'a ConversionInput,
        ConversionError,
    >)
        ensures
            match primary_name {
                None => r matches Err(ConversionError::PrimaryNotSpecified),
                Some(target) => match r {
                    Ok(found) => exists|k: int| #![trigger inputs@[k]] 0 <= k < inputs@.len() && inputs@[k] == *found
                        && filename_or_unknown(inputs@[k].path@) == target@
                        && (forall|j: int| 0 <= j < k ==> filename_or_unknown(
                            #[trigger] inputs@[j].path@,
                        ) != target@),
                    Err(e) => (e matches ConversionError::PrimaryNotFound { name } && name@ == target@)
                        && forall|j: int| 0 <= j < inputs@.len() ==> filename_or_unknown(
                            #[trigger] inputs@[j].path@,
                        ) != target@,
                },
            },
    {
        let target = match primary_name {
            Some(t) => t,
            None => return Err(ConversionError::PrimaryNotSpecified),
        };
        let mut i: usize = 0;
        while i < inputs.len()
            invariant
                i <= inputs@.len(),
                primary_name == Some(target),
                forall|j: int| 0 <= j < i ==> filename_or_unknown(#[trigger] inputs@[j].path@)
                    != target@,
            decreases inputs@.len() - i,
        {
            let name = Self::extract_filename_str(inputs[i].path.as_str());
            if str_eq(name.as_str(), target) {
                let found = &inputs[i];
                assert(0 <= i < inputs@.len() && inputs@[i as int] == *found
                    && filename_or_unknown(inputs@[i as int].path@) == target@
                    && (forall|j: int| 0 <= j < i ==> filename_or_unknown(
                            #[trigger] inputs@[j].path@,
                        ) != target@));
                return Ok(found);
            }
            i = i + 1;
        }
        Err(ConversionError::PrimaryNotFound { name: target.to_owned() })
    }

    /// Create a `ConversionResult` from a completed output file of `size`
    /// bytes; refuses outputs below `min_output_bytes` and paths without a parent.
    pub fn create_conversion_result(
        input: &ConversionInput,
        output_path: &str,
        size: u64,
        min_output_bytes: u64,
    ) -> (r: Result<ConversionResult, ConversionError>)
        ensures
            size < min_output_bytes ==> (r matches Err(ConversionError::OutputEmpty { path })
                && path@ == output_path@),
            size >= min_output_bytes && parent(output_path@) is None ==> (r matches Err(
                ConversionError::NoParentDir { path },
            ) && path@ == output_path@),
            size >= min_output_bytes && parent(output_path@) is Some ==> (r matches Ok(res)
                && res.path@ == output_path@ && res.filename@ == filename_or_unknown(output_path@)
                && res.destination@ == parent(output_path@)->0 && res.original_name@
                == input.original_name@ && res.size == size),
    {
        if size < min_output_bytes {
            return Err(ConversionError::OutputEmpty { path: output_path.to_owned() });
        }
        let destination = match path_parent(output_path) {
            Some(d) => d,
            None => return Err(ConversionError::NoParentDir { path: output_path.to_owned() }),
        };
        Ok(
            ConversionResult {
                path: output_path.to_owned(),
                filename: Self::extract_filename_str(output_path),
                destination,
                original_name: input.original_name.clone(),
                size,
            },
        )
    }

    /// Where a VTFx pass-through file is written: a unique name derived from
    /// the input's file name, inside `output_dir`.
    pub fn vtfx_output_path(input_path: &str, output_dir: &str) -> (r: String)
        ensures
            exists|token: Seq<char>| token.len() == 32 && r@ == join(
                output_dir@,
                unique_name(sanitized_stem(filename_or_unknown(input_path@)), token, "vtfx"@),
            ),
    {
        let original_name = Self::extract_filename_str(input_path);
        let name = Self::generate_unique_filename(original_name.as_str(), "vtfx");
        path_join(output_dir, name.as_str())
    }

    /// The result recorded for a VTFx file passed through to `out_path`.
    pub fn vtfx_result(input_path: &str, output_dir: &str, out_path: &str, size: u64) -> (r: ConversionResult)
        ensures
            r.path@ == out_path@,
            r.filename@ == filename_or_unknown(out_path@),
            r.destination@ == output_dir@,
            r.original_name@ == filename_or_unknown(input_path@),
            r.size == size,
    {
        ConversionResult {
            path: out_path.to_owned(),
            filename: Self::extract_filename_str(out_path),
            destination: output_dir.to_owned(),
            original_name: Self::extract_filename_str(input_path),
            size,
        }
    }

    /// A fresh directory inside `extract_to` to extract an archive into:
    /// `extract__` followed by a new token.
    pub fn extraction_dir(extract_to: &str) -> (r: String)
        ensures
            exists|token: Seq<char>| token.len() == 32 && r@ == join(extract_to@, "extract__"@ + token),
    {
        let token = fresh_token();
        let name = crate::text::concat2("extract__", token.as_str());
        path_join(extract_to, name.as_str())
    }

    /// Where an archive entry is written: its enclosed (safe) name below the
    /// extraction directory; entries without one are skipped.
    pub fn entry_output_path(root: &str, enclosed_name: Option<&str>) -> (r: Option<String>)
        ensures
            match enclosed_name {
                Some(n) => r matches Some(p) && p@ == join(root@, n@),
                None => r is None,
            },
    {
        match enclosed_name {
            Some(n) => Some(path_join(root, n)),
            None => None,
        }
    }

    /// What a directory scan does with an entry: keeps a file of a known
    /// type, descends into a directory when scanning deeper, ignores the rest.
    pub fn scan_entry(path: &str, is_file: bool, is_dir: bool, scan_deeper: bool) -> (r: ScanDecision)
        ensures
            is_file ==> r == (if classify_path(path@, None) is Some { ScanDecision::Keep } else { ScanDecision::Ignore }),
            !is_file && is_dir && scan_deeper ==> r == ScanDecision::Descend,
            !is_file && !(is_dir && scan_deeper) ==> r == ScanDecision::Ignore,
    {
        if is_file {
            if FileType::from_path_ref(path, None).is_some() {
                ScanDecision::Keep
            } else {
                ScanDecision::Ignore
            }
        } else if is_dir && scan_deeper {
            ScanDecision::Descend
        } else {
            ScanDecision::Ignore
        }
    }

    /// Whether a failed rename of a pass-through file falls back to copy and
    /// delete: for errors of kind `Other` and OS errors 17 and 18.
    pub fn rename_falls_back(kind_is_other: bool, os_error: Option<i32>) -> (r: bool)
        ensures
            r == (kind_is_other || os_error == Some(17i32) || os_error == Some(18i32)),
    {
        kind_is_other || match os_error {
            Some(c) => c == 17 || c == 18,
            None => false,
        }
    }

    /// Refuses archives with more entries than `MAX_ZIP_FILES`.
    pub fn check_zip_entry_count(count: usize) -> (r: Result<(), ConversionError>)
        ensures
            count > Self::MAX_ZIP_FILES ==> (r matches Err(ConversionError::ZipTooManyFiles { count: c, limit })
                && c == count && limit == Self::MAX_ZIP_FILES),
            count <= Self::MAX_ZIP_FILES ==> r is Ok,
    {
        if count > Self::MAX_ZIP_FILES {
            Err(ConversionError::ZipTooManyFiles { count, limit: Self::MAX_ZIP_FILES })
        } else {
            Ok(())
        }
    }

    /// Adds the size of one more extracted entry to the running total;
    /// refuses once the total exceeds `MAX_EXTRACTED_SIZE`.
    pub fn add_extracted_size(total: u64, entry_size: u64) -> (r: Result<u64, ConversionError>)
        requires
            total + entry_size <= u64::MAX,
        ensures
            total + entry_size > Self::MAX_EXTRACTED_SIZE ==> (r matches Err(
                ConversionError::ZipSizeExceeded { limit },
            ) && limit == Self::MAX_EXTRACTED_SIZE),
            total + entry_size <= Self::MAX_EXTRACTED_SIZE ==> r == Ok::<u64, ConversionError>(
                (total + entry_size) as u64,
            ),
    {
        let t = total + entry_size;
        if t > Self::MAX_EXTRACTED_SIZE {
            Err(ConversionError::ZipSizeExceeded { limit: Self::MAX_EXTRACTED_SIZE })
        } else {
            Ok(t)
        }
    }
}

} // verus!
