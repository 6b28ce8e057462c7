//! Field rules shared by the catalogue and organisation modules: bounded trimmed text,
//! optional text, dotted host names, web addresses and LIKE-pattern escaping.
use crate::text::{
    byte_len, char_count, chars_of, has_char, index_of_any, norm_opt, opt_str_view, owned,
    push_char, starts_with, take_until, trim, trim_seq, utf8_len,
};
use vstd::prelude::*;

verus! {

/// Trimmed text that must not be empty nor longer than `max` (counted in characters, or in
/// UTF-8 bytes when `bytes`).
pub open spec fn bounded_spec(s: Seq<char>, empty_msg: Seq<char>, max: nat, bytes: bool, long_msg: Seq<char>) -> Result<
    Seq<char>,
    Seq<char>,
> {
    let t = trim_seq(s);
    if t.len() == 0 {
        Err(empty_msg)
    } else if (if bytes {
        byte_len(t)
    } else {
        t.len()
    }) > max {
        Err(long_msg)
    } else {
        Ok(t)
    }
}

/// Trims `s` and checks it against `bounded_spec`; the error is the message.
pub fn bounded_text(s: &str, empty_msg: &str, max: usize, bytes: bool, long_msg: &str) -> (r: Result<
    String,
    String,
>)
    ensures
        match bounded_spec(s@, empty_msg@, max as nat, bytes, long_msg@) {
            Ok(t) => r matches Ok(x) && x@ == t,
            Err(m) => r matches Err(x) && x@ == m,
        },
{
    let t = trim(s);
    let n = char_count(t);
    if n == 0 {
        return Err(owned(empty_msg));
    }
    let len = if bytes {
        utf8_len(t)
    } else {
        n
    };
    if len > max {
        return Err(owned(long_msg));
    }
    Ok(owned(t))
}

/// Trimmed text that must not be empty.
pub open spec fn nonblank_spec(s: Seq<char>, msg: Seq<char>) -> Result<Seq<char>, Seq<char>> {
    if trim_seq(s).len() == 0 {
        Err(msg)
    } else {
        Ok(trim_seq(s))
    }
}

/// Trims `s`, which must not be blank; the error is `msg`.
pub fn nonblank_text(s: &str, msg: &str) -> (r: Result<String, String>)
    ensures
        match nonblank_spec(s@, msg@) {
            Ok(t) => r matches Ok(x) && x@ == t,
            Err(m) => r matches Err(x) && x@ == m,
        },
{
    let t = trim(s);
    if char_count(t) == 0 {
        return Err(owned(msg));
    }
    Ok(owned(t))
}

/// Optional text, trimmed, absent when blank.
pub fn trimmed_opt(o: Option<&str>) -> (r: Option<String>)
    ensures
        match r {
            Some(x) => norm_opt(opt_str_view(o)) == Some(x@),
            None => norm_opt(opt_str_view(o)) is None,
        },
{
    match o {
        Some(s) => {
            let t = trim(s);
            if char_count(t) == 0 {
                None
            } else {
                Some(owned(t))
            }
        },
        None => None,
    }
}

/// Whether splitting `h` on `.` gives at least two labels, none empty: `h` holds a dot, does
/// not start or end with one, and holds no two dots in a row.
pub open spec fn dotted_labels_ok(h: Seq<char>) -> bool {
    &&& has_char(h, '.')
    &&& h[0] != '.'
    &&& h.last() != '.'
    &&& forall|i: int| 0 <= i < h.len() - 1 ==> !(#[trigger] h[i] == '.' && h[i + 1] == '.')
}

/// Whether `h` splits on `.` into at least two non-empty labels.
pub fn is_dotted_host(h: &str) -> (r: bool)
    ensures
        r == dotted_labels_ok(h@),
{
    let v = chars_of(h);
    let n = v.len();
    if n == 0 {
        return false;
    }
    if v[0] == '.' || v[n - 1] == '.' {
        return false;
    }
    let mut seen_dot = false;
    let mut i: usize = 0;
    while i < n
        invariant
            v@ == h@,
            n == v@.len(),
            n > 0,
            i <= n,
            seen_dot == (exists|k: int| 0 <= k < i && v@[k] == '.'),
            forall|k: int| 0 <= k < i && k < n - 1 ==> !(#[trigger] v@[k] == '.' && v@[k + 1] == '.'),
        decreases n - i,
    {
        if v[i] == '.' {
            if i + 1 < n && v[i + 1] == '.' {
                return false;
            }
            seen_dot = true;
        }
        i = i + 1;
    }
    if !seen_dot {
        assert(!has_char(h@, '.'));
    }
    seen_dot
}

/// What `validate_url_syntax` decides: absent or blank is no address; otherwise at most 2048
/// characters, no whitespace, and a host (after an optional `https://` or `http://`, up to
/// the first `/`, `?`, `#` or `:`) made of at least two non-empty dot-separated labels.
pub open spec fn url_spec(url: Option<Seq<char>>) -> Result<Option<Seq<char>>, Seq<char>> {
    match norm_opt(url) {
        None => Ok(None),
        Some(s) => if s.len() > 2048 {
            Err("Website URL exceeds maximum length of 2048 characters"@)
        } else if crate::text::has_ws(s) {
            Err("Website URL cannot contain whitespace"@)
        } else {
            let rest = if has_prefix(s, "https://"@) {
                s.skip(8)
            } else if has_prefix(s, "http://"@) {
                s.skip(7)
            } else {
                s
            };
            let host = take_until(rest, seq!['/', '?', '#', ':']);
            if !dotted_labels_ok(host) {
                Err("Website URL must be a valid web address or domain"@)
            } else {
                Ok(Some(s))
            }
        },
    }
}

pub open spec fn has_prefix(s: Seq<char>, p: Seq<char>) -> bool {
    p.len() <= s.len() && s.take(p.len() as int) == p
}

/// Validates website address syntax conservatively.
pub fn validate_url_syntax(url: Option<&str>) -> (r: Result<Option<String>, &'static str>)
    ensures
        match url_spec(opt_str_view(url)) {
            Ok(None) => r matches Ok(None),
            Ok(Some(s)) => r matches Ok(Some(x)) && x@ == s,
            Err(m) => r matches Err(e) && e@ == m,
        },
{
    proof {
        reveal_strlit("https://");
        reveal_strlit("http://");
        reveal_strlit("/?#:");
    }
    let s = match url {
        None => {
            return Ok(None);
        },
        Some(u) => {
            let t = trim(u);
            if char_count(t) == 0 {
                return Ok(None);
            }
            t
        },
    };
    let n = char_count(s);
    if n > 2048 {
        return Err("Website URL exceeds maximum length of 2048 characters");
    }
    if crate::text::contains_ws(s) {
        return Err("Website URL cannot contain whitespace");
    }
    let rest: &str = if starts_with(s, "https://") {
        s.substring_char(8, n)
    } else if starts_with(s, "http://") {
        s.substring_char(7, n)
    } else {
        s
    };
    assert(rest@ =~= (if has_prefix(s@, "https://"@) {
        s@.skip(8)
    } else if has_prefix(s@, "http://"@) {
        s@.skip(7)
    } else {
        s@
    }));
    let cut = index_of_any(rest, "/?#:");
    assert("/?#:"@ =~= seq!['/', '?', '#', ':']);
    let host = rest.substring_char(0, cut);
    assert(host@ =~= rest@.take(cut as int));
    if !is_dotted_host(host) {
        return Err("Website URL must be a valid web address or domain");
    }
    Ok(Some(owned(s)))
}

/// `s` with a backslash before every `%`, `_` and `\` (escaping for `LIKE ... ESCAPE '\'`).
pub open spec fn like_escaped(s: Seq<char>) -> Seq<char>
    decreases s.len(),
{
    if s.len() == 0 {
        Seq::empty()
    } else {
        let c = s.last();
        like_escaped(s.drop_last()) + if c == '%' || c == '_' || c == '\\' {
            seq!['\\', c]
        } else {
            seq![c]
        }
    }
}

/// Escapes the LIKE wildcards `%`, `_` and the escape character `\` with a backslash.
pub fn escape_like_pattern(input: &str) -> (r: String)
    ensures
        r@ == like_escaped(input@),
{
    let v = chars_of(input);
    let mut out = String::new();
    let mut i: usize = 0;
    while i < v.len()
        invariant
            v@ == input@,
            i <= v@.len(),
            out@ == like_escaped(input@.take(i as int)),
        decreases v.len() - i,
    {
        let c = v[i];
        let ghost before = out@;
        if c == '%' || c == '_' || c == '\\' {
            push_char(&mut out, '\\');
        }
        push_char(&mut out, c);
        proof {
            assert(input@.take(i + 1).drop_last() =~= input@.take(i as int));
            assert(input@.take(i + 1).last() == c);
            assert(out@ =~= like_escaped(input@.take(i + 1)));
        }
        i = i + 1;
    }
    assert(input@.take(v.len() as int) =~= input@);
    out
}

/// Text without wildcards or backslashes is left as it is.
pub proof fn lemma_escape_plain_text(s: Seq<char>)
    requires
        forall|i: int| 0 <= i < s.len() ==> #[trigger] s[i] != '%' && s[i] != '_' && s[i] != '\\',
    ensures
        like_escaped(s) == s,
    decreases s.len(),
{
    if s.len() > 0 {
        let d = s.drop_last();
        assert forall|i: int| 0 <= i < d.len() implies #[trigger] d[i] != '%' && d[i] != '_' && d[i]
            != '\\' by {
            assert(d[i] == s[i]);
        }
        lemma_escape_plain_text(d);
        assert(d.push(s.last()) =~= s);
    }
}


/// Whether every character of `s` is an ASCII capital letter.
pub fn is_all_upper(s: &str) -> (r: bool)
    ensures
        r == crate::text::all_upper(s@),
{
    let v = chars_of(s);
    let mut i: usize = 0;
    while i < v.len()
        invariant
            v@ == s@,
            i <= v@.len(),
            forall|k: int| 0 <= k < i ==> crate::text::is_upper(#[trigger] s@[k]),
        decreases v.len() - i,
    {
        if !(v[i] >= 'A' && v[i] <= 'Z') {
            assert(!crate::text::is_upper(s@[i as int]));
            return false;
        }
        i = i + 1;
    }
    true
}


/// Greatest number of ancestors a hierarchy walk visits.
pub const MAX_DEFENSIVE_STEPS: usize = 50;

/// Outcome of one step of an ancestor walk that looks for `self_id` above a new parent.
pub enum AncestorStep {
    /// Go on with this ancestor.
    Next(String),
    /// The walk ended without meeting `self_id` (a root, or a missing ancestor).
    Clear,
    /// `self_id` is an ancestor: the new parent is one of its descendants.
    Cycle,
    /// The walk reached its step limit.
    TooDeep,
}

/// Mathematical image of an ancestor step.
pub enum AncestorStepSpec {
    Next(Seq<char>),
    Clear,
    Cycle,
    TooDeep,
}

impl View for AncestorStep {
    type V = AncestorStepSpec;

    open spec fn view(&self) -> AncestorStepSpec {
        match self {
            AncestorStep::Next(s) => AncestorStepSpec::Next(s@),
            AncestorStep::Clear => AncestorStepSpec::Clear,
            AncestorStep::Cycle => AncestorStepSpec::Cycle,
            AncestorStep::TooDeep => AncestorStepSpec::TooDeep,
        }
    }
}

/// One step of an ancestor walk after `steps` ancestors were passed, from the stored parent
/// of the current ancestor (`None`: no such row; `Some(None)`: a root).
pub open spec fn ancestor_step_spec(self_id: Seq<char>, steps: nat, parent: Option<Option<Seq<char>>>) -> AncestorStepSpec {
    match parent {
        None => AncestorStepSpec::Clear,
        Some(None) => AncestorStepSpec::Clear,
        Some(Some(a)) => if a == self_id {
            AncestorStepSpec::Cycle
        } else if steps + 1 >= MAX_DEFENSIVE_STEPS {
            AncestorStepSpec::TooDeep
        } else {
            AncestorStepSpec::Next(a)
        },
    }
}

/// Mathematical image of a stored parent reference.
pub open spec fn parent_view(p: Option<Option<String>>) -> Option<Option<Seq<char>>> {
    match p {
        None => None,
        Some(None) => Some(None),
        Some(Some(a)) => Some(Some(a@)),
    }
}

/// One step of the ancestor walk.
pub fn ancestor_step(self_id: &str, steps: usize, parent: Option<Option<String>>) -> (r: AncestorStep)
    requires
        steps < MAX_DEFENSIVE_STEPS,
    ensures
        r@ == ancestor_step_spec(self_id@, steps as nat, parent_view(parent)),
{
    match parent {
        None => AncestorStep::Clear,
        Some(None) => AncestorStep::Clear,
        Some(Some(a)) => {
            if crate::text::str_eq(a.as_str(), self_id) {
                AncestorStep::Cycle
            } else if steps + 1 >= MAX_DEFENSIVE_STEPS {
                AncestorStep::TooDeep
            } else {
                AncestorStep::Next(a)
            }
        },
    }
}

/// A walk that meets the location itself among the ancestors reports a cycle, however far up
/// it is; a walk that reaches a root or a missing row ends clear.
pub proof fn lemma_ancestor_walk_outcomes(self_id: Seq<char>, steps: nat, parent: Option<Option<Seq<char>>>)
    ensures
        parent == Some(Some(self_id)) ==> ancestor_step_spec(self_id, steps, parent) is Cycle,
        (parent is None || parent == Some(None::<Seq<char>>)) ==> ancestor_step_spec(self_id, steps, parent) is Clear,
        ancestor_step_spec(self_id, steps, parent) is Cycle ==> parent == Some(Some(self_id)),
{
}

/// A walk only goes on while it is under its step limit, so it asks for at most
/// `MAX_DEFENSIVE_STEPS` ancestors.
pub proof fn lemma_ancestor_walk_bounded(self_id: Seq<char>, steps: nat, parent: Option<Option<Seq<char>>>)
    requires
        ancestor_step_spec(self_id, steps, parent) is Next,
    ensures
        steps + 1 < MAX_DEFENSIVE_STEPS,
        parent == Some(Some(ancestor_step_spec(self_id, steps, parent)->Next_0)),
        ancestor_step_spec(self_id, steps, parent)->Next_0 != self_id,
{
}

} // verus!
