//! Path and file-name utilities on plain strings: splitting a path into
//! parent, stem and extension, generating output paths, classifying files
//! by extension, quoting for a command line, and rejecting unsafe paths.

use vstd::prelude::*;

use crate::error::CompressError;
use crate::text::{
    contains_adjacent_pair, contains_char, has_adjacent_pair, lower_seq, seq_contains_char,
    str_eq, to_ascii_lowercase,
};

verus! {

/// Index of the last occurrence of `c` in `s`, or -1 when absent.
pub open spec fn last_index_of_spec(s: Seq<char>, c: char) -> int
    decreases s.len(),
{
    if s.len() == 0 {
        -1
    } else if s.last() == c {
        s.len() - 1
    } else {
        last_index_of_spec(s.drop_last(), c)
    }
}

proof fn lemma_last_index_at(s: Seq<char>, c: char, i: int)
    requires
        0 <= i < s.len(),
        s[i] == c,
        forall|j: int| i < j < s.len() ==> s[j] != c,
    ensures
        last_index_of_spec(s, c) == i,
    decreases s.len(),
{
    if i == s.len() - 1 {
    } else {
        assert(s.last() != c);
        assert(forall|j: int| 0 <= j < s.len() - 1 ==> s.drop_last()[j] == s[j]);
        lemma_last_index_at(s.drop_last(), c, i);
    }
}

proof fn lemma_last_index_none(s: Seq<char>, c: char)
    requires
        !seq_contains_char(s, c),
    ensures
        last_index_of_spec(s, c) == -1,
    decreases s.len(),
{
    if s.len() > 0 {
        assert(s.last() != c);
        assert(forall|j: int| 0 <= j < s.len() - 1 ==> s.drop_last()[j] == s[j]);
        assert(!seq_contains_char(s.drop_last(), c));
        lemma_last_index_none(s.drop_last(), c);
    }
}

/// Finds the last occurrence of a character, as `last_index_of_spec`
/// describes.
fn rfind_char(s: &str, c: char) -> (r: Option<usize>)
    ensures
        r matches Some(i) ==> 0 <= i < s@.len() && last_index_of_spec(s@, c) == i,
        r is None ==> last_index_of_spec(s@, c) == -1,
{
    let n = s.unicode_len();
    let mut i: usize = n;
    while i > 0
        invariant
            0 <= i <= n,
            n == s@.len(),
            forall|j: int| i <= j < n ==> s@[j] != c,
        decreases i,
    {
        i = i - 1;
        if s.get_char(i) == c {
            proof {
                lemma_last_index_at(s@, c, i as int);
            }
            return Some(i);
        }
    }
    proof {
        assert(!seq_contains_char(s@, c));
        lemma_last_index_none(s@, c);
    }
    None
}

/// The file-name part of a path: everything after the last separator.
pub open spec fn spec_file_name(p: Seq<char>) -> Seq<char> {
    let i = last_index_of_spec(p, '/');
    if i < 0 {
        p
    } else {
        p.skip(i + 1)
    }
}

/// The parent part of a path: everything before the last separator; the
/// root stays the root, and a bare file name has an empty parent.
pub open spec fn spec_parent(p: Seq<char>) -> Seq<char> {
    let i = last_index_of_spec(p, '/');
    if i < 0 {
        Seq::<char>::empty()
    } else if i == 0 {
        seq!['/']
    } else {
        p.take(i)
    }
}

/// The extension of a path's file name: everything after the last dot,
/// unless the dot is absent or leads the file name.
pub open spec fn spec_extension(p: Seq<char>) -> Option<Seq<char>> {
    let f = spec_file_name(p);
    let d = last_index_of_spec(f, '.');
    if d <= 0 {
        None
    } else {
        Some(f.skip(d + 1))
    }
}

/// The stem of a path's file name: the file name without its extension.
pub open spec fn spec_file_stem(p: Seq<char>) -> Seq<char> {
    let f = spec_file_name(p);
    let d = last_index_of_spec(f, '.');
    if d <= 0 {
        f
    } else {
        f.take(d)
    }
}

/// The file-name part of a path, as `spec_file_name` describes.
pub fn file_name_of<'a>(p: &'a str) -> (r: &'a str)
    ensures
        r@ == spec_file_name(p@),
{
    let n = p.unicode_len();
    match rfind_char(p, '/') {
        Some(i) => {
            let f = p.substring_char(i + 1, n);
            proof {
                assert(f@ =~= p@.skip(i + 1));
            }
            f
        },
        None => p,
    }
}

/// The extension of a path's file name, as `spec_extension` describes.
pub fn extension_of<'a>(p: &'a str) -> (r: Option<&'a str>)
    ensures
        r matches Some(e) ==> spec_extension(p@) == Some(e@),
        r is None ==> spec_extension(p@) is None,
{
    let f = file_name_of(p);
    let n = f.unicode_len();
    match rfind_char(f, '.') {
        Some(d) => {
            if d == 0 {
                None
            } else {
                let e = f.substring_char(d + 1, n);
                proof {
                    assert(e@ =~= f@.skip(d + 1));
                }
                Some(e)
            }
        },
        None => None,
    }
}

/// The stem of a path's file name, as `spec_file_stem` describes.
pub fn file_stem_of<'a>(p: &'a str) -> (r: &'a str)
    ensures
        r@ == spec_file_stem(p@),
{
    let f = file_name_of(p);
    match rfind_char(f, '.') {
        Some(d) => {
            if d == 0 {
                f
            } else {
                let st = f.substring_char(0, d);
                proof {
                    assert(st@ =~= f@.take(d as int));
                }
                st
            }
        },
        None => f,
    }
}

/// The file extension in ASCII lower case, or nothing when the file has no
/// extension.
pub fn get_extension_lowercase(path: &str) -> (r: Option<String>)
    ensures
        r matches Some(e) ==> (spec_extension(path@) matches Some(x) && e@ == lower_seq(x)),
        r is None ==> spec_extension(path@) is None,
{
    match extension_of(path) {
        Some(e) => Some(to_ascii_lowercase(e)),
        None => None,
    }
}

/// The extension of a path's file name, folded to ASCII lower case.
pub open spec fn lower_seq_of_extension(p: Seq<char>) -> Option<Seq<char>> {
    match spec_extension(p) {
        Some(e) => Some(lower_seq(e)),
        None => None,
    }
}

/// The recognized video file extensions, in both letter cases.
pub open spec fn video_extension_list() -> Seq<Seq<char>> {
    seq![
        "mp4"@, "avi"@, "mkv"@, "mov"@, "wmv"@, "flv"@, "webm"@, "m4v"@, "3gp"@, "ogv"@,
        "MP4"@, "AVI"@, "MKV"@, "MOV"@, "WMV"@, "FLV"@, "WEBM"@, "M4V"@, "3GP"@, "OGV"@,
    ]
}

/// The recognized image file extensions, in both letter cases.
pub open spec fn image_extension_list() -> Seq<Seq<char>> {
    seq![
        "jpg"@, "jpeg"@, "png"@, "webp"@, "bmp"@, "tiff"@, "tga"@, "gif"@,
        "JPG"@, "JPEG"@, "PNG"@, "WEBP"@, "BMP"@, "TIFF"@, "TGA"@, "GIF"@,
    ]
}

/// The recognized video extensions, lower case first, then the upper-case
/// variants kept for cross-platform compatibility.
pub fn get_video_extensions() -> (r: Vec<&'static str>)
    ensures
        r@.map_values(|e: &'static str| e@) =~= video_extension_list(),
{
    let v: Vec<&'static str> = vec![
        "mp4", "avi", "mkv", "mov", "wmv", "flv", "webm", "m4v", "3gp", "ogv",
        "MP4", "AVI", "MKV", "MOV", "WMV", "FLV", "WEBM", "M4V", "3GP", "OGV",
    ];
    v
}

/// The recognized image extensions, lower case first, then the upper-case
/// variants kept for cross-platform compatibility.
pub fn get_image_extensions() -> (r: Vec<&'static str>)
    ensures
        r@.map_values(|e: &'static str| e@) =~= image_extension_list(),
{
    let v: Vec<&'static str> = vec![
        "jpg", "jpeg", "png", "webp", "bmp", "tiff", "tga", "gif",
        "JPG", "JPEG", "PNG", "WEBP", "BMP", "TIFF", "TGA", "GIF",
    ];
    v
}

/// True when the path's extension is a recognized video extension.
pub open spec fn spec_is_video_file(p: Seq<char>) -> bool {
    match spec_extension(p) {
        Some(e) => video_extension_list().contains(e),
        None => false,
    }
}

/// True when the path's extension is a recognized image extension.
pub open spec fn spec_is_image_file(p: Seq<char>) -> bool {
    match spec_extension(p) {
        Some(e) => image_extension_list().contains(e),
        None => false,
    }
}

fn extension_in_list(ext: &str, list: &Vec<&'static str>) -> (r: bool)
    ensures
        r == list@.map_values(|e: &'static str| e@).contains(ext@),
{
    let ghost views = list@.map_values(|e: &'static str| e@);
    let n = list.len();
    let mut i: usize = 0;
    while i < n
        invariant
            0 <= i <= n,
            n == list@.len(),
            views == list@.map_values(|e: &'static str| e@),
            forall|j: int| 0 <= j < i ==> views[j] != ext@,
        decreases n - i,
    {
        if str_eq(list[i], ext) {
            proof {
                assert(views[i as int] == ext@);
            }
            return true;
        }
        i = i + 1;
    }
    proof {
        if views.contains(ext@) {
            let j = choose|j: int| 0 <= j < views.len() && views[j] == ext@;
            assert(false);
        }
    }
    false
}

/// Classifies a file as a video by its extension, used to decide what
/// becomes a job during batch scanning.
pub fn is_video_file(path: &str) -> (r: bool)
    ensures
        r == spec_is_video_file(path@),
{
    match extension_of(path) {
        Some(e) => {
            let list = get_video_extensions();
            extension_in_list(e, &list)
        },
        None => false,
    }
}

/// Classifies a file as an image by its extension, used to decide what
/// becomes a job during batch scanning.
pub fn is_image_file(path: &str) -> (r: bool)
    ensures
        r == spec_is_image_file(path@),
{
    match extension_of(path) {
        Some(e) => {
            let list = get_image_extensions();
            extension_in_list(e, &list)
        },
        None => false,
    }
}

/// The view of an optional borrowed string.
pub open spec fn opt_view(o: Option<&str>) -> Option<Seq<char>> {
    match o {
        Some(s) => Some(s@),
        None => None,
    }
}

/// The output path generated for an input: the input's stem, then the
/// suffix, then a dot and the chosen extension (the given one, or else the
/// input's own, or else nothing), placed in the chosen directory (the given
/// one, or else the input's parent).
pub open spec fn spec_generate_output_path(
    input: Seq<char>,
    dir: Option<Seq<char>>,
    suffix: Option<Seq<char>>,
    ext: Option<Seq<char>>,
) -> Seq<char> {
    let stem = spec_file_stem(input);
    let named = match suffix {
        Some(x) => stem + x,
        None => stem,
    };
    let fext = match ext {
        Some(e) => e,
        None => match spec_extension(input) {
            Some(e) => e,
            None => Seq::<char>::empty(),
        },
    };
    let fname = named + seq!['.'] + fext;
    let d = match dir {
        Some(x) => x,
        None => spec_parent(input),
    };
    if d.len() == 0 {
        fname
    } else if d.last() == '/' {
        d + fname
    } else {
        d + seq!['/'] + fname
    }
}

/// Generates the output path for an input file, exactly as
/// `spec_generate_output_path` describes.
pub fn generate_output_path(
    input: &str,
    output_dir: Option<&str>,
    suffix: Option<&str>,
    extension: Option<&str>,
) -> (r: String)
    ensures
        r@ == spec_generate_output_path(
            input@,
            opt_view(output_dir),
            opt_view(suffix),
            opt_view(extension),
        ),
{
    let ghost gdir = opt_view(output_dir);
    let ghost gsuf = opt_view(suffix);
    let ghost gext = opt_view(extension);
    let mut fname = file_stem_of(input).to_owned();
    match suffix {
        Some(x) => fname.append(x),
        None => {},
    }
    fname.append(".");
    match extension {
        Some(e) => fname.append(e),
        None => match extension_of(input) {
            Some(e) => fname.append(e),
            None => {},
        },
    }
    proof {
        reveal_strlit(".");
        assert("."@ =~= seq!['.']);
        let stem = spec_file_stem(input@);
        let named = match gsuf {
            Some(x) => stem + x,
            None => stem,
        };
        let fext = match gext {
            Some(e) => e,
            None => match spec_extension(input@) {
                Some(e) => e,
                None => Seq::<char>::empty(),
            },
        };
        assert(fname@ =~= named + seq!['.'] + fext);
    }
    let mut out: String;
    match output_dir {
        Some(d) => {
            out = d.to_owned();
        },
        None => {
            out = parent_of(input);
        },
    }
    let dn = out.as_str().unicode_len();
    if dn == 0 {
        return fname;
    }
    if out.as_str().get_char(dn - 1) != '/' {
        out.append("/");
        proof {
            reveal_strlit("/");
            assert("/"@ =~= seq!['/']);
        }
    }
    out.append(fname.as_str());
    proof {
        assert(out@ =~= spec_generate_output_path(input@, gdir, gsuf, gext));
    }
    out
}

/// The parent part of a path, as `spec_parent` describes.
pub fn parent_of(p: &str) -> (r: String)
    ensures
        r@ == spec_parent(p@),
{
    match rfind_char(p, '/') {
        Some(i) => {
            if i == 0 {
                let r = "/".to_owned();
                proof {
                    reveal_strlit("/");
                    assert(r@ =~= seq!['/']);
                }
                r
            } else {
                let d = p.substring_char(0, i);
                proof {
                    assert(d@ =~= p@.take(i as int));
                }
                d.to_owned()
            }
        },
        None => String::new(),
    }
}

/// One character of a shell-quoted path: a single quote becomes the
/// four-character escape, everything else stays as it is.
pub open spec fn spec_escape_char(c: char) -> Seq<char> {
    if c == '\'' {
        seq!['\'', '\\', '\'', '\'']
    } else {
        seq![c]
    }
}

/// A path body with every single quote escaped.
pub open spec fn spec_escaped(s: Seq<char>) -> Seq<char>
    decreases s.len(),
{
    if s.len() == 0 {
        Seq::<char>::empty()
    } else {
        spec_escape_char(s.first()) + spec_escaped(s.drop_first())
    }
}

/// True when a path needs quoting before it may stand on a command line.
pub open spec fn spec_needs_quoting(s: Seq<char>) -> bool {
    seq_contains_char(s, ' ') || seq_contains_char(s, '"') || seq_contains_char(s, '\\')
}

/// The shell-safe form of a path: quoted and escaped when it holds a
/// space, a double quote or a backslash, and unchanged otherwise.
pub open spec fn spec_quote_path(s: Seq<char>) -> Seq<char> {
    if spec_needs_quoting(s) {
        seq!['\''] + spec_escaped(s) + seq!['\'']
    } else {
        s
    }
}

proof fn lemma_escaped_push(s: Seq<char>, c: char)
    ensures
        spec_escaped(s.push(c)) == spec_escaped(s) + spec_escape_char(c),
    decreases s.len(),
{
    if s.len() == 0 {
        assert(s.push(c).first() == c);
        assert(s.push(c).drop_first() =~= Seq::<char>::empty());
        assert(spec_escaped(Seq::<char>::empty()) =~= Seq::<char>::empty());
        assert(spec_escaped(s.push(c)) =~= spec_escape_char(c) + spec_escaped(
            Seq::<char>::empty(),
        ));
        assert(spec_escape_char(c) + Seq::<char>::empty() =~= spec_escape_char(c));
        assert(spec_escaped(s) + spec_escape_char(c) =~= spec_escape_char(c));
    } else {
        assert(s.push(c).first() == s.first());
        assert(s.push(c).drop_first() =~= s.drop_first().push(c));
        lemma_escaped_push(s.drop_first(), c);
        assert(spec_escape_char(s.first()) + (spec_escaped(s.drop_first()) + spec_escape_char(c))
            =~= (spec_escape_char(s.first()) + spec_escaped(s.drop_first())) + spec_escape_char(c));
    }
}

/// Quotes a path for use as a command-line argument, exactly as
/// `spec_quote_path` describes.
pub fn quote_path(path: &str) -> (r: String)
    ensures
        r@ == spec_quote_path(path@),
{
    let needs = contains_char(path, ' ') || contains_char(path, '"') || contains_char(
        path,
        '\\',
    );
    if !needs {
        return path.to_owned();
    }
    let n = path.unicode_len();
    let mut out = "'".to_owned();
    proof {
        reveal_strlit("'");
        assert(out@ =~= seq!['\'']);
        assert(spec_escaped(path@.subrange(0, 0)) =~= Seq::<char>::empty());
    }
    let mut i: usize = 0;
    while i < n
        invariant
            0 <= i <= n,
            n == path@.len(),
            out@ =~= seq!['\''] + spec_escaped(path@.subrange(0, i as int)),
        decreases n - i,
    {
        let c = path.get_char(i);
        if c == '\'' {
            out.append("'\\''");
            proof {
                reveal_strlit("'\\''");
                assert("'\\''"@ =~= seq!['\'', '\\', '\'', '\'']);
            }
        } else {
            crate::text::push_char(&mut out, c);
        }
        proof {
            assert(path@.subrange(0, i + 1 as int) =~= path@.subrange(0, i as int).push(
                path@[i as int],
            ));
            lemma_escaped_push(path@.subrange(0, i as int), path@[i as int]);
        }
        i = i + 1;
    }
    out.append("'");
    proof {
        reveal_strlit("'");
        assert(path@.subrange(0, n as int) =~= path@);
        assert(out@ =~= seq!['\''] + spec_escaped(path@) + seq!['\'']);
    }
    out
}

/// Validates that a path is safe to hand to a command: no `..` traversal
/// and no null bytes; says exactly which rule a rejected path broke.
pub fn validate_safe_path(path: &str) -> (r: Result<(), CompressError>)
    ensures
        r is Ok <==> (!has_adjacent_pair(path@, '.', '.') && !seq_contains_char(path@, '\0')),
        has_adjacent_pair(path@, '.', '.') ==> (r matches Err(e)
            && e matches CompressError::InvalidParameter { parameter: p, value: v }
            && p@ == "path"@ && v@ == "Path traversal not allowed"@),
        !has_adjacent_pair(path@, '.', '.') && seq_contains_char(path@, '\0') ==> (r matches Err(
            e,
        ) && e matches CompressError::InvalidParameter { parameter: p, value: v }
            && p@ == "path"@ && v@ == "Null bytes not allowed in paths"@),
{
    if contains_adjacent_pair(path, '.', '.') {
        return Err(CompressError::invalid_parameter("path", "Path traversal not allowed"));
    }
    if contains_char(path, '\0') {
        return Err(CompressError::invalid_parameter("path", "Null bytes not allowed in paths"));
    }
    Ok(())
}

/// Decides whether writing the output is allowed: an existing output file
/// is only overwritten when overwriting was requested.
pub fn check_output_overwrite(path: &str, output_exists: bool, overwrite: bool) -> (r: Result<
    (),
    CompressError,
>)
    ensures
        r is Ok <==> (!output_exists || overwrite),
        output_exists && !overwrite ==> (r matches Err(e)
            && e matches CompressError::FileExists { path: p } && p@ == path@),
{
    if output_exists && !overwrite {
        Err(CompressError::file_exists(path))
    } else {
        Ok(())
    }
}

} // verus!
