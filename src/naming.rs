use vstd::prelude::*;

verus! {

/// What `sanitize_filename::sanitize_with_options` makes of a name, with
/// the Windows rules off, truncation on and the empty replacement.
pub uninterp spec fn sanitized(name: Seq<char>) -> Seq<char>;

/// A text that can stand as one path segment: no separator, and not a
/// reference to the current or the parent directory.
pub open spec fn is_single_segment(s: Seq<char>) -> bool {
    &&& forall|i: int| 0 <= i < s.len() ==> #[trigger] s[i] != '/' && s[i] != '\\'
    &&& s != seq!['.']
    &&& s != seq!['.', '.']
}

/// A character that sanitizing deletes: a reserved punctuation mark or a control character.
pub open spec fn removed_char(c: char) -> bool {
    ||| c == '/' || c == '?' || c == '<' || c == '>' || c == '\\'
    ||| c == ':' || c == '*' || c == '|' || c == '"'
    ||| (c as u32) <= 0x1f
    ||| 0x80 <= (c as u32) && (c as u32) <= 0x9f
}

/// A name that sanitizing leaves as it is: at most 255 ASCII characters, none
/// of them deleted, and not made of dots alone.
pub open spec fn clean_name(s: Seq<char>) -> bool {
    &&& s.len() <= 255
    &&& forall|i: int| 0 <= i < s.len() ==> (#[trigger] s[i] as u32) < 0x80 && !removed_char(s[i])
    &&& !(s.len() > 0 && forall|i: int| 0 <= i < s.len() ==> #[trigger] s[i] == '.')
}

/// Relies on `sanitize_filename::sanitize_with_options` with the Windows rules
/// off, truncation on and the empty replacement: it deletes every reserved
/// punctuation mark (`/` and `\\` among them) and control character, turns a
/// name made of dots alone into the empty name, and truncates to 255 bytes.
/// So the result is one path segment, and a clean name comes back unchanged.
#[verifier::external_body]
fn sanitize_name(name: &str) -> (r: String)
    ensures
        r@ == sanitized(name@),
        is_single_segment(r@),
        clean_name(name@) ==> r@ == name@,
{
    let options = sanitize_filename::Options { windows: false, truncate: true, replacement: "" };
    sanitize_filename::sanitize_with_options(name, options)
}

/// The name recorded for a part that declares none.
pub open spec fn placeholder_name() -> Seq<char> {
    seq!['u', 'n', 'k', 'n', 'o', 'w', 'n', '_', 'f', 'i', 'l', 'e']
}

/// The name under which a part is recorded: the one it declares, or the placeholder.
pub open spec fn declared_name_of(filename: Option<Seq<char>>) -> Seq<char> {
    match filename {
        Some(n) => n,
        None => placeholder_name(),
    }
}

/// The view of an optional text.
pub open spec fn option_view(o: Option<String>) -> Option<Seq<char>> {
    match o {
        Some(n) => Some(n@),
        None => None,
    }
}

/// The directory that receives the uploads, with its trailing separator.
pub open spec fn upload_dir() -> Seq<char> {
    seq!['.', '/', 'u', 'p', 'l', 'o', 'a', 'd', 's', '/']
}

/// The segment under which a sanitized name is stored: the name itself, or
/// the placeholder where sanitizing left nothing.
pub open spec fn stored_segment(sanitized_name: Seq<char>) -> Seq<char> {
    if sanitized_name.len() == 0 {
        placeholder_name()
    } else {
        sanitized_name
    }
}

/// Where the bytes of an upload declared as `name` are stored.
pub open spec fn upload_path_of(name: Seq<char>) -> Seq<char> {
    upload_dir() + stored_segment(sanitized(name))
}

/// The name to record for a part: the declared file name if there is one,
/// else the placeholder `unknown_file`.
pub fn declared_name(filename: Option<String>) -> (r: String)
    ensures
        r@ == declared_name_of(option_view(filename)),
{
    match filename {
        Some(n) => n,
        None => {
            let p = "unknown_file";
            proof {
                reveal_strlit("unknown_file");
            }
            assert(p@ =~= placeholder_name());
            String::from_str(p)
        },
    }
}

/// The path in the upload directory for an already sanitized name: the name
/// as the entry, or `unknown_file` where it is empty.
pub fn in_upload_dir(segment: &str) -> (r: String)
    ensures
        r@ == upload_dir() + stored_segment(segment@),
{
    let dir = "./uploads/";
    proof {
        reveal_strlit("./uploads/");
    }
    assert(dir@ =~= upload_dir());
    let mut path = String::from_str(dir);
    if segment.unicode_len() == 0 {
        let p = "unknown_file";
        proof {
            reveal_strlit("unknown_file");
        }
        assert(p@ =~= placeholder_name());
        path.append(p);
    } else {
        path.append(segment);
    }
    path
}

/// The path under the upload directory where the bytes of `name` are written:
/// the directory followed by one non-empty segment, the sanitized name (or
/// `unknown_file` where sanitizing leaves nothing). A clean name is kept as it is.
pub fn upload_path(name: &str) -> (r: String)
    ensures
        r@ == upload_path_of(name@),
        r@.len() > upload_dir().len(),
        is_single_segment(stored_segment(sanitized(name@))),
        clean_name(name@) && name@.len() > 0 ==> r@ == upload_dir() + name@,
{
    let file = sanitize_name(name);
    proof {
        let p = placeholder_name();
        assert(p[0] == 'u');
        assert(forall|i: int| 0 <= i < p.len() ==> p[i] != '/' && p[i] != '\\');
    }
    in_upload_dir(file.as_str())
}

} // verus!
