//! Profile records: a named, isolated runtime configuration persisted as
//! one directory with a descriptor file.
//!
//! The library decides everything about a profile except the disk I/O:
//! it derives the slug and directory path, rules on whether creation may
//! proceed, renders the descriptor document, and assembles a record from
//! the fields read back out of one. The caller reads and writes the
//! actual files and reports what it saw.

use vstd::prelude::*;
use crate::json::descriptor_fields;
use crate::json::descriptor_fields_of;
use crate::loader::ModLoader;
use crate::loader::loader_from_spec;
use crate::loader::loader_name_spec;
use crate::text::lower_of;
use crate::text::to_lowercase;

verus! {

/// Failures of the profile store.
#[derive(Clone, Copy, Debug, PartialEq, Eq, Structural)]
pub enum ProfileError {
    /// A non-empty directory already sits at the profile's slug path.
    AlreadyExists,
    /// A profile directory has no descriptor file to load.
    MissingDescriptor,
    /// A descriptor file is not JSON or lacks an expected field.
    MalformedDescriptor,
}

// ---------------------------------------------------------------------
// Slug normalization.
// ---------------------------------------------------------------------

/// The Unicode white-space characters, as `char::is_whitespace` accepts
/// them: the characters with the White_Space property.
pub open spec fn is_wspace(c: char) -> bool {
    ||| c == ' '
    ||| c == '\t'
    ||| c == '\n'
    ||| c == '\u{0b}'
    ||| c == '\u{0c}'
    ||| c == '\r'
    ||| c == '\u{85}'
    ||| c == '\u{a0}'
    ||| c == '\u{1680}'
    ||| ('\u{2000}' <= c && c <= '\u{200a}')
    ||| c == '\u{2028}'
    ||| c == '\u{2029}'
    ||| c == '\u{202f}'
    ||| c == '\u{205f}'
    ||| c == '\u{3000}'
}

/// Folding a name into a slug, one character at a time: the slug built
/// so far, and whether a hyphen is owed before the next word character.
pub open spec fn slug_state(s: Seq<char>) -> (Seq<char>, bool)
    decreases s.len(),
{
    if s.len() == 0 {
        (Seq::empty(), false)
    } else {
        let prev = slug_state(s.drop_last());
        let c = s.last();
        if is_wspace(c) {
            (prev.0, prev.0.len() > 0)
        } else if prev.1 {
            (prev.0 + seq!['-'] + seq![c], false)
        } else {
            (prev.0 + seq![c], false)
        }
    }
}

/// The words of `s`, joined by single hyphens: runs of white space
/// collapse to one hyphen, leading and trailing white space vanishes.
pub open spec fn slug_of(s: Seq<char>) -> Seq<char> {
    slug_state(s).0
}

fn is_wspace_char(c: char) -> (r: bool)
    ensures
        r == is_wspace(c),
{
    c == ' ' || c == '\t' || c == '\n' || c == '\u{0b}' || c == '\u{0c}' || c == '\r' || c
        == '\u{85}' || c == '\u{a0}' || c == '\u{1680}' || ('\u{2000}' <= c && c <= '\u{200a}') || c
        == '\u{2028}' || c == '\u{2029}' || c == '\u{202f}' || c == '\u{205f}' || c == '\u{3000}'
}

/// Normalize a display name to a slug: lowercase it, then join its
/// words with hyphens.
pub fn normalize_name(name: &String) -> (r: String)
    ensures
        r@ == slug_of(lower_of(name@)),
{
    let low = to_lowercase(name.as_str());
    let n = low.as_str().unicode_len();
    let mut out = String::new();
    let mut pending: bool = false;
    let mut i: usize = 0;
    while i < n
        invariant
            n == low@.len(),
            i <= n,
            out@ == slug_state(low@.take(i as int)).0,
            pending == slug_state(low@.take(i as int)).1,
        decreases n - i,
    {
        proof {
            assert(low@.take(i + 1).drop_last() =~= low@.take(i as int));
            assert(low@.take(i + 1).last() == low@[i as int]);
        }
        let c = low.as_str().get_char(i);
        if is_wspace_char(c) {
            pending = out.as_str().unicode_len() > 0;
        } else {
            if pending {
                out.append("-");
                proof {
                    reveal_strlit("-");
                    assert("-"@ =~= seq!['-']);
                }
            }
            let piece = low.as_str().substring_char(i, i + 1);
            proof {
                assert(low@.subrange(i as int, i + 1) =~= seq![low@[i as int]]);
            }
            out.append(piece);
            pending = false;
        }
        i = i + 1;
    }
    proof {
        assert(low@.take(n as int) =~= low@);
    }
    out
}

/// No white space survives normalization: every character of a slug is
/// a word character of the input or the hyphen put between words.
proof fn lemma_slug_no_wspace(s: Seq<char>)
    ensures
        forall|k: int| 0 <= k < slug_of(s).len() ==> !is_wspace(#[trigger] slug_of(s)[k]),
    decreases s.len(),
{
    if s.len() > 0 {
        lemma_slug_no_wspace(s.drop_last());
        let prev = slug_state(s.drop_last());
        let c = s.last();
        assert forall|k: int| 0 <= k < slug_of(s).len() implies !is_wspace(
            #[trigger] slug_of(s)[k],
        ) by {
            if is_wspace(c) {
                assert(slug_of(s)[k] == slug_of(s.drop_last())[k]);
            } else if k < prev.0.len() {
                assert(slug_of(s)[k] == slug_of(s.drop_last())[k]);
            } else if prev.1 && k == prev.0.len() {
                assert(slug_of(s)[k] == '-');
            } else {
                assert(slug_of(s)[k] == c);
            }
        }
    }
}

/// The slug fold leaves a sequence without white space unchanged, and
/// owes it no hyphen.
proof fn lemma_slug_fixed_without_wspace(s: Seq<char>)
    requires
        forall|k: int| 0 <= k < s.len() ==> !is_wspace(#[trigger] s[k]),
    ensures
        slug_of(s) == s,
        !slug_state(s).1,
    decreases s.len(),
{
    if s.len() == 0 {
        assert(slug_of(s) =~= s);
    } else {
        lemma_slug_fixed_without_wspace(s.drop_last());
        assert(slug_of(s) =~= s.drop_last() + seq![s.last()]);
        assert(s.drop_last() + seq![s.last()] =~= s);
    }
}

/// The slug fold is idempotent: a slug normalizes to itself. (Whether
/// `normalize_name` as a whole is idempotent additionally rests on the
/// lowercase mapping, of which no such law is stated.)
pub proof fn lemma_slug_of_idempotent(s: Seq<char>)
    ensures
        slug_of(slug_of(s)) == slug_of(s),
{
    lemma_slug_no_wspace(s);
    lemma_slug_fixed_without_wspace(slug_of(s));
}

// ---------------------------------------------------------------------
// The descriptor document.
// ---------------------------------------------------------------------

/// The hexadecimal digit for a value below sixteen.
pub open spec fn hex_digit_spec(d: int) -> char {
    if d == 0 { '0' }
    else if d == 1 { '1' }
    else if d == 2 { '2' }
    else if d == 3 { '3' }
    else if d == 4 { '4' }
    else if d == 5 { '5' }
    else if d == 6 { '6' }
    else if d == 7 { '7' }
    else if d == 8 { '8' }
    else if d == 9 { '9' }
    else if d == 10 { 'a' }
    else if d == 11 { 'b' }
    else if d == 12 { 'c' }
    else if d == 13 { 'd' }
    else if d == 14 { 'e' }
    else { 'f' }
}

/// How one character appears inside a JSON string literal.
pub open spec fn esc_char(c: char) -> Seq<char> {
    if c == '"' { seq!['\\', '"'] }
    else if c == '\\' { seq!['\\', '\\'] }
    else if c == '\n' { seq!['\\', 'n'] }
    else if c == '\t' { seq!['\\', 't'] }
    else if c == '\r' { seq!['\\', 'r'] }
    else if (c as u32) < 32 {
        seq!['\\', 'u', '0', '0', hex_digit_spec((c as u32 / 16) as int), hex_digit_spec((c as u32 % 16) as int)]
    } else {
        seq![c]
    }
}

/// A character sequence as it appears inside a JSON string literal.
pub open spec fn json_escaped(s: Seq<char>) -> Seq<char>
    decreases s.len(),
{
    if s.len() == 0 {
        Seq::empty()
    } else {
        json_escaped(s.drop_last()) + esc_char(s.last())
    }
}

fn hex_digit(d: u32) -> (r: &'static str)
    requires
        d < 16,
    ensures
        r@ == seq![hex_digit_spec(d as int)],
{
    proof {
        reveal_strlit("0");
        reveal_strlit("1");
        reveal_strlit("2");
        reveal_strlit("3");
        reveal_strlit("4");
        reveal_strlit("5");
        reveal_strlit("6");
        reveal_strlit("7");
        reveal_strlit("8");
        reveal_strlit("9");
        reveal_strlit("a");
        reveal_strlit("b");
        reveal_strlit("c");
        reveal_strlit("d");
        reveal_strlit("e");
        reveal_strlit("f");
    }
    if d == 0 { "0" }
    else if d == 1 { "1" }
    else if d == 2 { "2" }
    else if d == 3 { "3" }
    else if d == 4 { "4" }
    else if d == 5 { "5" }
    else if d == 6 { "6" }
    else if d == 7 { "7" }
    else if d == 8 { "8" }
    else if d == 9 { "9" }
    else if d == 10 { "a" }
    else if d == 11 { "b" }
    else if d == 12 { "c" }
    else if d == 13 { "d" }
    else if d == 14 { "e" }
    else { "f" }
}

/// Escape a string for inclusion in a JSON string literal.
pub fn escape_json(s: &str) -> (r: String)
    ensures
        r@ == json_escaped(s@),
{
    let n = s.unicode_len();
    let mut out = String::new();
    let mut i: usize = 0;
    while i < n
        invariant
            n == s@.len(),
            i <= n,
            out@ == json_escaped(s@.take(i as int)),
        decreases n - i,
    {
        proof {
            assert(s@.take(i + 1).drop_last() =~= s@.take(i as int));
            assert(s@.take(i + 1).last() == s@[i as int]);
        }
        let c = s.get_char(i);
        if c == '"' {
            out.append("\\\"");
            proof {
                reveal_strlit("\\\"");
                assert("\\\""@ =~= esc_char('"'));
            }
        } else if c == '\\' {
            out.append("\\\\");
            proof {
                reveal_strlit("\\\\");
                assert("\\\\"@ =~= esc_char('\\'));
            }
        } else if c == '\n' {
            out.append("\\n");
            proof {
                reveal_strlit("\\n");
                assert("\\n"@ =~= esc_char('\n'));
            }
        } else if c == '\t' {
            out.append("\\t");
            proof {
                reveal_strlit("\\t");
                assert("\\t"@ =~= esc_char('\t'));
            }
        } else if c == '\r' {
            out.append("\\r");
            proof {
                reveal_strlit("\\r");
                assert("\\r"@ =~= esc_char('\r'));
            }
        } else if (c as u32) < 32 {
            out.append("\\u00");
            out.append(hex_digit((c as u32) / 16));
            out.append(hex_digit((c as u32) % 16));
            proof {
                reveal_strlit("\\u00");
                assert("\\u00"@ + seq![hex_digit_spec((c as u32 / 16) as int)] + seq![
                    hex_digit_spec((c as u32 % 16) as int),
                ] =~= esc_char(c));
            }
        } else {
            let piece = s.substring_char(i, i + 1);
            proof {
                assert(s@.subrange(i as int, i + 1) =~= seq![s@[i as int]]);
                assert(seq![s@[i as int]] =~= esc_char(s@[i as int]));
            }
            out.append(piece);
        }
        proof {
            assert(out@ =~= json_escaped(s@.take(i + 1)));
        }
        i = i + 1;
    }
    proof {
        assert(s@.take(n as int) =~= s@);
    }
    out
}

/// The type field a profile's loader is persisted as: the loader's
/// configuration name, or "vanilla" for none.
pub open spec fn loader_type_spec(l: Option<ModLoader>) -> Seq<char> {
    match l {
        Some(x) => loader_name_spec(x),
        None => "vanilla"@,
    }
}

/// The descriptor document for the given fields: one JSON object with
/// the name, slug, type and version members, in that order.
pub open spec fn descriptor_spec(
    name: Seq<char>,
    slug: Seq<char>,
    typ: Seq<char>,
    version: Seq<char>,
) -> Seq<char> {
    "{\"name\":\""@ + json_escaped(name) + "\",\"slug\":\""@ + json_escaped(slug)
        + "\",\"type\":\""@ + json_escaped(typ) + "\",\"version\":\""@ + json_escaped(version)
        + "\"}"@
}

// ---------------------------------------------------------------------
// The profile record.
// ---------------------------------------------------------------------

/// A profile: display name, slug, the directory it owns, and the loader
/// it targets (none for vanilla).
#[derive(Debug)]
pub struct Profile {
    pub name: String,
    pub slug: String,
    pub path: String,
    pub loader: Option<ModLoader>,
}

impl Profile {
    /// Rule on creating a profile and build its record. The caller
    /// reports whether a directory already sits at the slug path and
    /// whether it is non-empty; creation fails exactly when a non-empty
    /// directory is already there. The new record targets no loader and
    /// owns the directory `profiles_root/slug`.
    pub fn create(name: String, profiles_root: &str, dir_exists: bool, dir_nonempty: bool) -> (r:
        Result<Profile, ProfileError>)
        ensures
            (r is Err) == (dir_exists && dir_nonempty),
            r matches Err(e) ==> e == ProfileError::AlreadyExists,
            r matches Ok(p) ==> {
                &&& p.name == name
                &&& p.slug@ == slug_of(lower_of(name@))
                &&& p.path@ == profiles_root@ + "/"@ + slug_of(lower_of(name@))
                &&& p.loader is None
            },
    {
        if dir_exists && dir_nonempty {
            Err(ProfileError::AlreadyExists)
        } else {
            let slug = normalize_name(&name);
            let path = profiles_root.to_owned().concat("/").concat(slug.as_str());
            proof {
                assert(path@ =~= profiles_root@ + "/"@ + slug_of(lower_of(name@)));
            }
            Ok(Profile { name, slug, path, loader: None })
        }
    }

    pub fn name(&self) -> (r: &String)
        ensures
            r@ == self.name@,
    {
        &self.name
    }

    pub fn slug(&self) -> (r: &String)
        ensures
            r@ == self.slug@,
    {
        &self.slug
    }

    pub fn path(&self) -> (r: &String)
        ensures
            r@ == self.path@,
    {
        &self.path
    }

    pub fn loader(&self) -> (r: &Option<ModLoader>)
        ensures
            *r == self.loader,
    {
        &self.loader
    }

    /// Assemble a record from the fields read out of a descriptor file.
    /// Loading fails exactly when a field is missing; the loader is
    /// parsed case-insensitively from the type field, unrecognized
    /// values (among them "vanilla") denoting no loader.
    pub fn assemble(
        path: &str,
        name: Option<String>,
        slug: Option<String>,
        loader_name: Option<String>,
    ) -> (r: Result<Profile, ProfileError>)
        ensures
            (r is Ok) == (name is Some && slug is Some && loader_name is Some),
            r matches Err(e) ==> e == ProfileError::MalformedDescriptor,
            r matches Ok(p) ==> {
                &&& name matches Some(n) && p.name == n
                &&& slug matches Some(s) && p.slug == s
                &&& p.path@ == path@
                &&& loader_name matches Some(t) && p.loader == loader_from_spec(lower_of(t@))
            },
    {
        match (name, slug, loader_name) {
            (Some(name), Some(slug), Some(loader_name)) => {
                let loader = match ModLoader::from_str(loader_name.as_str()) {
                    Ok(l) => Some(l),
                    Err(_) => None,
                };
                Ok(Profile { name, slug, path: path.to_owned(), loader })
            },
            _ => Err(ProfileError::MalformedDescriptor),
        }
    }

    /// Render the descriptor document this profile is persisted as.
    pub fn descriptor(&self, version: &str) -> (r: String)
        ensures
            r@ == descriptor_spec(self.name@, self.slug@, loader_type_spec(self.loader), version@),
    {
        let typ = match &self.loader {
            Some(l) => l.to_string(),
            None => "vanilla".to_owned(),
        };
        let name_esc = escape_json(self.name.as_str());
        let slug_esc = escape_json(self.slug.as_str());
        let typ_esc = escape_json(typ.as_str());
        let version_esc = escape_json(version);
        let r = "{\"name\":\"".to_owned().concat(name_esc.as_str()).concat(
            "\",\"slug\":\"",
        ).concat(slug_esc.as_str()).concat("\",\"type\":\"").concat(typ_esc.as_str()).concat(
            "\",\"version\":\"",
        ).concat(version_esc.as_str()).concat("\"}");
        proof {
            assert(r@ =~= descriptor_spec(
                self.name@,
                self.slug@,
                loader_type_spec(self.loader),
                version@,
            ));
        }
        r
    }

    /// Load a profile record from the bytes of the descriptor file found
    /// in the directory at `path`: it succeeds exactly when the bytes
    /// yield the name, slug and type strings, and then the record holds
    /// exactly those, the loader parsed case-insensitively from the type
    /// field.
    pub fn load(path: &str, descriptor: &[u8]) -> (r: Result<Profile, ProfileError>)
        ensures
            (r is Ok) == (descriptor_fields_of(descriptor@) is Some),
            r matches Err(e) ==> e == ProfileError::MalformedDescriptor,
            r matches Ok(p) ==> descriptor_fields_of(descriptor@) matches Some(f) && {
                &&& p.name@ == f.0
                &&& p.slug@ == f.1
                &&& p.path@ == path@
                &&& p.loader == loader_from_spec(lower_of(f.2))
            },
    {
        match descriptor_fields(descriptor) {
            Some((name, slug, typ)) => Profile::assemble(path, Some(name), Some(slug), Some(typ)),
            None => Err(ProfileError::MalformedDescriptor),
        }
    }
}

// ---------------------------------------------------------------------
// The profiles root.
// ---------------------------------------------------------------------

/// What the caller found in one child directory of the profiles root:
/// the directory's path and the bytes of its descriptor file, or none
/// when the directory has no readable descriptor.
#[derive(Debug)]
pub struct ProfileSource {
    pub path: String,
    pub descriptor: Option<Vec<u8>>,
}

/// Whether one child directory of the profiles root loads: it has a
/// descriptor whose bytes yield the three descriptor fields.
pub open spec fn child_loads(child: ProfileSource) -> bool {
    match child.descriptor {
        Some(bytes) => descriptor_fields_of(bytes@) is Some,
        None => false,
    }
}

/// Load every profile under the profiles root, in the order given: it
/// succeeds exactly when every child loads, and then yields one record
/// per child, each as `Profile::load` returns it. The whole listing
/// fails on the first child that fails to load — with `MissingDescriptor`
/// when that child has no descriptor, `MalformedDescriptor` when its
/// bytes do not yield the fields — with no partial result.
pub fn load_profiles(children: &Vec<ProfileSource>) -> (r: Result<Vec<Profile>, ProfileError>)
    ensures
        (r is Ok) == (forall|i: int|
            0 <= i < children@.len() ==> child_loads(#[trigger] children@[i])),
        r matches Ok(ps) ==> {
            &&& ps@.len() == children@.len()
            &&& forall|i: int|
                0 <= i < ps@.len() ==> {
                    let c = children@[i];
                    &&& (#[trigger] ps@[i]).path@ == c.path@
                    &&& c.descriptor matches Some(bytes) && descriptor_fields_of(bytes@)
                        matches Some(f) && ps@[i].name@ == f.0 && ps@[i].slug@ == f.1
                        && ps@[i].loader == loader_from_spec(lower_of(f.2))
                }
        },
        r matches Err(e) ==> exists|i: int|
            0 <= i < children@.len() && !child_loads(#[trigger] children@[i]) && (forall|j: int|
                0 <= j < i ==> child_loads(children@[j])) && e == (if children@[i].descriptor
                is None {
                ProfileError::MissingDescriptor
            } else {
                ProfileError::MalformedDescriptor
            }),
{
    let mut out: Vec<Profile> = Vec::new();
    let mut i: usize = 0;
    while i < children.len()
        invariant
            i <= children@.len(),
            out@.len() == i,
            forall|j: int| 0 <= j < i ==> child_loads(#[trigger] children@[j]),
            forall|j: int|
                0 <= j < i ==> {
                    let c = children@[j];
                    &&& (#[trigger] out@[j]).path@ == c.path@
                    &&& c.descriptor matches Some(bytes) && descriptor_fields_of(bytes@)
                        matches Some(f) && out@[j].name@ == f.0 && out@[j].slug@ == f.1
                        && out@[j].loader == loader_from_spec(lower_of(f.2))
                },
        decreases children@.len() - i,
    {
        let child = &children[i];
        match child.descriptor.as_ref() {
            Some(bytes) => {
                match Profile::load(child.path.as_str(), bytes.as_slice()) {
                    Ok(p) => out.push(p),
                    Err(e) => {
                        return Err(e);
                    },
                }
            },
            None => {
                return Err(ProfileError::MissingDescriptor);
            },
        }
        i = i + 1;
    }
    Ok(out)
}

} // verus!
