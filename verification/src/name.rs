//! Safe file names.
//!
//! Of a client-supplied name the directory components are stripped; what is
//! left, the last component, is cleaned by the `sanitize-filename` crate and
//! then admitted as a [`SanitizedName`] only if it is a single, ordinary path
//! component: joined to the storage root it names a direct child of the root.

use vstd::prelude::*;
use vstd::string::*;

verus! {

/// Characters that can make a name leave the directory it is joined to,
/// or cut it short.
pub open spec fn is_forbidden(c: char) -> bool {
    c == '/' || c == '\\' || c == '\0'
}

/// Characters that part the components of a path.
pub open spec fn is_separator(c: char) -> bool {
    c == '/' || c == '\\'
}

/// The last component of a path: what follows its last separator, or the
/// whole of it where it has none.
pub open spec fn base_name(raw: Seq<char>) -> Seq<char>
    decreases raw.len(),
{
    if raw.len() == 0 {
        raw
    } else if is_separator(raw.last()) {
        Seq::empty()
    } else {
        base_name(raw.drop_last()).push(raw.last())
    }
}

/// A name that is one ordinary path component: not empty, free of
/// separators and NUL, and neither `.` nor `..`.
pub open spec fn is_safe_name(s: Seq<char>) -> bool {
    &&& s.len() > 0
    &&& forall|i: int| 0 <= i < s.len() ==> !is_forbidden(#[trigger] s[i])
    &&& !(s.len() == 1 && s[0] == '.')
    &&& !(s.len() == 2 && s[0] == '.' && s[1] == '.')
}

/// The path under the storage root that a name stands for: `./` and the name.
pub open spec fn relative_path(name: Seq<char>) -> Seq<char> {
    seq!['.', '/'] + name
}

/// The components of a path, split at `/`.
pub open spec fn components(path: Seq<char>) -> Seq<Seq<char>>
    decreases path.len(),
{
    if path.len() == 0 {
        seq![Seq::<char>::empty()]
    } else {
        let rest = components(path.drop_first());
        if path[0] == '/' {
            seq![Seq::<char>::empty()] + rest
        } else {
            seq![seq![path[0]] + rest[0]] + rest.drop_first()
        }
    }
}

/// How many directories below the storage root a walk along the components
/// ends that starts `depth` below it; `None` where the walk leaves the root
/// on the way.  An empty component and `.` stay, `..` goes up, any other
/// component goes down.
pub open spec fn walk(parts: Seq<Seq<char>>, depth: int) -> Option<int>
    decreases parts.len(),
{
    if parts.len() == 0 {
        Some(depth)
    } else {
        let part = parts[0];
        let below = if part.len() == 0 || part == seq!['.'] {
            depth
        } else if part == seq!['.', '.'] {
            depth - 1
        } else {
            depth + 1
        };
        if below < 0 {
            None
        } else {
            walk(parts.drop_first(), below)
        }
    }
}

/// Why a name was refused.
#[derive(Clone, Copy, Debug, PartialEq, Eq, Structural)]
pub enum NameError {
    /// Nothing was left of the name.
    Empty,
    /// The name holds a separator or NUL, or is `.` or `..`.
    Unsafe,
}

/// What [`SanitizedName::from_cleaned`] answers for a given text.
pub open spec fn accepted(text: Seq<char>) -> Result<Seq<char>, NameError> {
    if text.len() == 0 {
        Err(NameError::Empty)
    } else if is_safe_name(text) {
        Ok(text)
    } else {
        Err(NameError::Unsafe)
    }
}

/// A file name that is safe to join to the storage root.
#[derive(Debug)]
pub struct SanitizedName {
    text: String,
}

impl View for SanitizedName {
    type V = Seq<char>;

    closed spec fn view(&self) -> Seq<char> {
        self.text@
    }
}

impl Clone for SanitizedName {
    fn clone(&self) -> (r: Self)
        ensures
            r == *self,
    {
        proof {
            use_type_invariant(self);
        }
        SanitizedName { text: self.text.clone() }
    }
}

impl SanitizedName {
    #[verifier::type_invariant]
    spec fn inv(&self) -> bool {
        is_safe_name(self.text@)
    }

    /// Takes a text that has already been cleaned, if it is a safe name.
    pub fn from_cleaned(text: String) -> (r: Result<SanitizedName, NameError>)
        ensures
            match r {
                Ok(n) => accepted(text@) == Ok::<Seq<char>, NameError>(n@),
                Err(e) => accepted(text@) == Err::<Seq<char>, NameError>(e),
            },
    {
        let len: usize = text.as_str().unicode_len();
        if len == 0 {
            return Err(NameError::Empty);
        }
        if has_forbidden(text.as_str()) {
            return Err(NameError::Unsafe);
        }
        if len == 1 && text.as_str().get_char(0) == '.' {
            return Err(NameError::Unsafe);
        }
        if len == 2 && text.as_str().get_char(0) == '.' && text.as_str().get_char(1) == '.' {
            return Err(NameError::Unsafe);
        }
        Ok(SanitizedName { text })
    }

    /// The name as text; it is always a safe name.
    pub fn as_str(&self) -> (r: &str)
        ensures
            r@ == self@,
            is_safe_name(self@),
    {
        proof {
            use_type_invariant(self);
        }
        self.text.as_str()
    }

    /// The name as an owned string.
    pub fn to_text(&self) -> (r: String)
        ensures
            r@ == self@,
            is_safe_name(self@),
    {
        proof {
            use_type_invariant(self);
        }
        self.text.clone()
    }

    /// The path of the file under the storage root: `./` followed by the name.
    pub fn path(&self) -> (r: String)
        ensures
            r@ == relative_path(self@),
    {
        proof {
            reveal_strlit("./");
        }
        let r = String::from_str("./").concat(self.text.as_str());
        assert(r@ =~= relative_path(self@));
        r
    }
}

/// Whether a text holds a separator or NUL.
pub fn has_forbidden(s: &str) -> (b: bool)
    ensures
        b == exists|i: int| 0 <= i < s@.len() && is_forbidden(#[trigger] s@[i]),
{
    let len: usize = s.unicode_len();
    let mut i: usize = 0;
    while i < len
        invariant
            len == s@.len(),
            i <= len,
            forall|j: int| 0 <= j < i ==> !is_forbidden(#[trigger] s@[j]),
        decreases len - i,
    {
        let c = s.get_char(i);
        if c == '/' || c == '\\' || c == '\0' {
            return true;
        }
        i = i + 1;
    }
    false
}

/// The last component of a path.
pub fn last_component(raw: &str) -> (base: &str)
    ensures
        base@ == base_name(raw@),
{
    let len: usize = raw.unicode_len();
    let mut start: usize = len;
    while start > 0 && !is_separator_char(raw.get_char(start - 1))
        invariant
            len == raw@.len(),
            start <= len,
            forall|j: int| start <= j < len ==> !is_separator(#[trigger] raw@[j]),
        decreases start,
    {
        start = start - 1;
    }
    proof {
        lemma_base_name_is_suffix(raw@, start as int);
    }
    raw.substring_char(start, len)
}

/// Whether a character parts the components of a path.
pub fn is_separator_char(c: char) -> (b: bool)
    ensures
        b == is_separator(c),
{
    c == '/' || c == '\\'
}

/// The last component is the text from `start` on, where no separator
/// follows `start` and one stands right before it, if anything does.
proof fn lemma_base_name_is_suffix(raw: Seq<char>, start: int)
    requires
        0 <= start <= raw.len(),
        forall|j: int| start <= j < raw.len() ==> !is_separator(#[trigger] raw[j]),
        start == 0 || is_separator(raw[start - 1]),
    ensures
        base_name(raw) == raw.subrange(start, raw.len() as int),
    decreases raw.len(),
{
    if raw.len() == 0 {
        assert(raw.subrange(start, raw.len() as int) =~= raw);
    } else if start == raw.len() {
        assert(raw.subrange(start, raw.len() as int) =~= Seq::<char>::empty());
    } else {
        let init = raw.drop_last();
        assert(!is_separator(raw[raw.len() - 1]));
        assert forall|j: int| start <= j < init.len() implies !is_separator(
            #[trigger] init[j],
        ) by {
            assert(init[j] == raw[j]);
        }
        lemma_base_name_is_suffix(init, start);
        assert(init.subrange(start, init.len() as int).push(raw.last()) =~= raw.subrange(
            start,
            raw.len() as int,
        ));
    }
}

/// The last component of any path is free of separators and is the end of
/// the path; a path without separators is its own last component.
pub proof fn base_name_is_bare(raw: Seq<char>)
    ensures
        forall|i: int| 0 <= i < base_name(raw).len() ==> !is_separator(#[trigger] base_name(raw)[i]),
        base_name(raw).len() <= raw.len(),
        base_name(raw) == raw.subrange(raw.len() - base_name(raw).len(), raw.len() as int),
        (forall|i: int| 0 <= i < raw.len() ==> !is_separator(#[trigger] raw[i])) ==> base_name(raw)
            == raw,
    decreases raw.len(),
{
    if raw.len() == 0 {
        assert(raw.subrange(0, 0) =~= raw);
    } else if is_separator(raw.last()) {
        assert(raw.subrange(raw.len() as int, raw.len() as int) =~= Seq::<char>::empty());
    } else {
        let init = raw.drop_last();
        base_name_is_bare(init);
        let b = base_name(init);
        assert(init.subrange(init.len() - b.len(), init.len() as int).push(raw.last())
            =~= raw.subrange(raw.len() - b.len() - 1, raw.len() as int));
        if forall|i: int| 0 <= i < raw.len() ==> !is_separator(#[trigger] raw[i]) {
            assert forall|i: int| 0 <= i < init.len() implies !is_separator(
                #[trigger] init[i],
            ) by {
                assert(init[i] == raw[i]);
            }
            assert(init.push(raw.last()) =~= raw);
        }
    }
}

/// What is known of a text that the cleaner returns: it is empty, or it is a
/// safe name.
pub open spec fn is_cleaned(text: Seq<char>) -> bool {
    text.len() == 0 || is_safe_name(text)
}

/// The text that `sanitize_filename::sanitize_with_options` makes of a raw
/// name, with or without the rules for Windows names and with the crate's
/// defaults otherwise.
pub uninterp spec fn cleaned_name(raw: Seq<char>, windows: bool) -> Seq<char>;

/// Calls `sanitize_filename::sanitize_with_options` with the crate's default
/// options, but for the rules for Windows names, which are applied or not as
/// `windows` says.
///
/// The crate removes every `/` and `\`, every control character (NUL among
/// them) and a few more reserved characters, turns a text that is nothing
/// but dots into the empty text, with the rules for Windows also a reserved
/// device name, and strips dots and spaces from the end; at last it cuts a
/// text of more than 255 bytes down to no more than 255 and no fewer than
/// 252.  Of the text that comes back the contract claims what follows from
/// that: it is empty or a safe name.
#[verifier::external_body]
pub(crate) fn clean(raw: &str, windows: bool) -> (cleaned: String)
    ensures
        cleaned@ == cleaned_name(raw@, windows),
        is_cleaned(cleaned@),
{
    let options = sanitize_filename::Options { windows, ..Default::default() };
    sanitize_filename::sanitize_with_options(raw, options)
}

/// The name that a client-supplied name stands for, before it is examined:
/// its last component, cleaned.
pub open spec fn target_name(raw: Seq<char>, windows: bool) -> Seq<char> {
    cleaned_name(base_name(raw), windows)
}

/// Strips the directory components of a client-supplied name, cleans what is
/// left and takes it if anything is left then.
///
/// `windows` says whether the rules for Windows names are applied too, as
/// they are to be where the storage is a Windows file system.  Whatever the
/// client sent, a name that is returned is a single ordinary path component,
/// so that its path stays inside the storage root; a name is refused only
/// because nothing was left of it.
pub fn sanitize(raw: &str, windows: bool) -> (r: Result<SanitizedName, NameError>)
    ensures
        match r {
            Ok(n) => n@ == target_name(raw@, windows) && is_safe_name(n@),
            Err(e) => e == NameError::Empty && target_name(raw@, windows).len() == 0,
        },
{
    let cleaned = clean(last_component(raw), windows);
    SanitizedName::from_cleaned(cleaned)
}

/// The path of a safe name has exactly two components, `.` and the name, and
/// resolves to a direct child of the storage root: it never leaves the root.
pub proof fn safe_name_stays_in_root(name: Seq<char>)
    requires
        is_safe_name(name),
    ensures
        components(relative_path(name)) == seq![seq!['.'], name],
        walk(components(relative_path(name)), 0) == Some(1int),
{
    lemma_components_of_plain(name);
    let p = relative_path(name);
    assert(p.drop_first() =~= seq!['/'] + name);
    assert(p.drop_first().drop_first() =~= name);
    reveal_with_fuel(components, 3);
    assert(components(p.drop_first()) =~= seq![Seq::<char>::empty()] + components(name));
    assert(seq!['.'] + Seq::<char>::empty() =~= seq!['.']);
    assert(components(p) =~= seq![seq!['.'], name]);
    let parts = seq![seq!['.'], name];
    assert(parts.drop_first() =~= seq![name]);
    assert(seq![name].drop_first() =~= Seq::<Seq<char>>::empty());
    assert(name != seq!['.']);
    assert(name != seq!['.', '.']);
    reveal_with_fuel(walk, 3);
}

/// A text without `/` is its own single component.
proof fn lemma_components_of_plain(s: Seq<char>)
    requires
        forall|i: int| 0 <= i < s.len() ==> #[trigger] s[i] != '/',
    ensures
        components(s) == seq![s],
    decreases s.len(),
{
    if s.len() == 0 {
        assert(s =~= Seq::<char>::empty());
    } else {
        let t = s.drop_first();
        assert forall|i: int| 0 <= i < t.len() implies #[trigger] t[i] != '/' by {
            assert(t[i] == s[i + 1]);
        }
        lemma_components_of_plain(t);
        assert(seq![s[0]] + t =~= s);
        assert(seq![seq![s[0]] + t] + seq![t].drop_first() =~= seq![s]);
    }
}

} // verus!
