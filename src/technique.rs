use vstd::prelude::*;
use crate::error::BypsError;
use crate::text::{chars_of, contains_chars, contains_seq, same_chars, str_equals, string_of};

verus! {

/// A named family of request mutations.
#[derive(Clone, Copy, Debug, PartialEq, Eq, Structural)]
pub enum Technique {
    PathBypass,
    HeaderForge,
    UrlEncoding,
    Unicode,
    ProtocolAbuse,
}

/// The category a technique belongs to.
#[derive(Clone, Copy, Debug, PartialEq, Eq, Structural)]
pub enum Category {
    Path,
    Header,
    Encoding,
    Unicode,
    Protocol,
}

/// The techniques in registration order.
pub open spec fn catalog_order() -> Seq<Technique> {
    seq![
        Technique::PathBypass,
        Technique::HeaderForge,
        Technique::UrlEncoding,
        Technique::Unicode,
        Technique::ProtocolAbuse,
    ]
}

/// The unique name of a technique.
pub open spec fn technique_name(t: Technique) -> Seq<char> {
    match t {
        Technique::PathBypass => "path_bypass"@,
        Technique::HeaderForge => "header_forge"@,
        Technique::UrlEncoding => "url_encoding"@,
        Technique::Unicode => "unicode"@,
        Technique::ProtocolAbuse => "protocol_abuse"@,
    }
}

/// `name` is the name of some technique.
pub open spec fn is_technique_name(name: Seq<char>) -> bool {
    exists|t: Technique| technique_name(t) == name
}

/// `s` cut at each comma.
pub open spec fn split_commas(s: Seq<char>) -> Seq<Seq<char>>
    decreases s.len(),
{
    if s.len() == 0 {
        seq![Seq::empty()]
    } else {
        let prev = split_commas(s.drop_last());
        if s.last() == ',' {
            prev.push(Seq::empty())
        } else {
            prev.update(prev.len() - 1, prev.last().push(s.last()))
        }
    }
}

/// The techniques of the catalog whose names are among `names`, in
/// registration order.
pub open spec fn chosen(names: Seq<Seq<char>>) -> Seq<Technique> {
    catalog_order().filter(|t: Technique| names.contains(technique_name(t)))
}

/// `segs[i]` is the first segment that names no technique.
pub open spec fn first_unknown_at(segs: Seq<Seq<char>>, i: int) -> bool {
    &&& 0 <= i < segs.len()
    &&& segs[i].len() > 0
    &&& !is_technique_name(segs[i])
    &&& forall|j: int| 0 <= j < i ==> segs[j].len() == 0 || is_technique_name(segs[j])
}

/// What a technique selection stands for: `all`, or technique names separated
/// by commas, where empty pieces are ignored.
pub open spec fn selection_ok(s: Seq<char>) -> bool {
    s == "all"@ || (
        (forall|i: int| 0 <= i < split_commas(s).len() ==> split_commas(s)[i].len() == 0 || is_technique_name(split_commas(s)[i]))
        && exists|i: int| 0 <= i < split_commas(s).len() && split_commas(s)[i].len() > 0
    )
}

pub open spec fn selection_of(s: Seq<char>) -> Seq<Technique> {
    if s == "all"@ { catalog_order() } else { chosen(split_commas(s)) }
}

pub open spec fn views(v: Seq<Vec<char>>) -> Seq<Seq<char>> {
    v.map_values(|x: Vec<char>| x@)
}

impl Technique {
    /// The unique name of this technique.
    pub fn name(&self) -> (r: &'static str)
        ensures
            r@ == technique_name(*self),
    {
        match self {
            Technique::PathBypass => "path_bypass",
            Technique::HeaderForge => "header_forge",
            Technique::UrlEncoding => "url_encoding",
            Technique::Unicode => "unicode",
            Technique::ProtocolAbuse => "protocol_abuse",
        }
    }

    /// The category this technique belongs to.
    pub fn category(&self) -> (r: Category)
        ensures
            r == category_of(*self),
    {
        match self {
            Technique::PathBypass => Category::Path,
            Technique::HeaderForge => Category::Header,
            Technique::UrlEncoding => Category::Encoding,
            Technique::Unicode => Category::Unicode,
            Technique::ProtocolAbuse => Category::Protocol,
        }
    }

    /// A one-line account of what the technique does.
    pub fn summary(&self) -> (r: &'static str)
        ensures
            r@ == technique_summary(*self),
    {
        match self {
            Technique::PathBypass => "Path manipulation techniques (trailing slash, encoding, case variation)",
            Technique::HeaderForge => "Header forgery (X-Forwarded-For, X-Original-URL, Host header)",
            Technique::UrlEncoding => "URL encoding variations (single, double, triple encoding)",
            Technique::Unicode => "Unicode normalization and homograph substitution",
            Technique::ProtocolAbuse => "HTTP protocol abuse (version manipulation, method variation)",
        }
    }

    /// The technique called `name`, if any.
    pub fn from_name(name: &str) -> (r: Option<Technique>)
        ensures
            r matches Some(t) ==> technique_name(t) == name@,
            r is None ==> !is_technique_name(name@),
    {
        Technique::from_chars(&chars_of(name))
    }

    fn from_chars(name: &Vec<char>) -> (r: Option<Technique>)
        ensures
            r matches Some(t) ==> technique_name(t) == name@,
            r is None ==> !is_technique_name(name@),
    {
        let all = all_techniques();
        let mut i: usize = 0;
        while i < all.len()
            invariant
                all@ == catalog_order(),
                i <= all@.len(),
                forall|j: int| 0 <= j < i ==> technique_name(all@[j]) != name@,
            decreases all@.len() - i,
        {
            if same_chars(&chars_of(all[i].name()), name) {
                return Some(all[i]);
            }
            i = i + 1;
        }
        proof {
            assert forall|t: Technique| technique_name(t) != name@ by {
                assert(catalog_order().contains(t)) by {
                    match t {
                        Technique::PathBypass => assert(catalog_order()[0] == t),
                        Technique::HeaderForge => assert(catalog_order()[1] == t),
                        Technique::UrlEncoding => assert(catalog_order()[2] == t),
                        Technique::Unicode => assert(catalog_order()[3] == t),
                        Technique::ProtocolAbuse => assert(catalog_order()[4] == t),
                    }
                }
            }
        }
        None
    }
}

/// A one-line account of what a technique does.
pub open spec fn technique_summary(t: Technique) -> Seq<char> {
    match t {
        Technique::PathBypass => "Path manipulation techniques (trailing slash, encoding, case variation)"@,
        Technique::HeaderForge => "Header forgery (X-Forwarded-For, X-Original-URL, Host header)"@,
        Technique::UrlEncoding => "URL encoding variations (single, double, triple encoding)"@,
        Technique::Unicode => "Unicode normalization and homograph substitution"@,
        Technique::ProtocolAbuse => "HTTP protocol abuse (version manipulation, method variation)"@,
    }
}

pub open spec fn category_of(t: Technique) -> Category {
    match t {
        Technique::PathBypass => Category::Path,
        Technique::HeaderForge => Category::Header,
        Technique::UrlEncoding => Category::Encoding,
        Technique::Unicode => Category::Unicode,
        Technique::ProtocolAbuse => Category::Protocol,
    }
}

/// Every technique, in registration order.
pub fn all_techniques() -> (r: Vec<Technique>)
    ensures
        r@ == catalog_order(),
{
    let r = vec![
        Technique::PathBypass,
        Technique::HeaderForge,
        Technique::UrlEncoding,
        Technique::Unicode,
        Technique::ProtocolAbuse,
    ];
    assert(r@ =~= catalog_order());
    r
}

/// The techniques whose names hold `category`, in registration order; all of
/// them where no category is given.
pub fn list_techniques(category: Option<&str>) -> (r: Vec<Technique>)
    ensures
        category is None ==> r@ == catalog_order(),
        category matches Some(c) ==> r@ == catalog_order().filter(
            |t: Technique| contains_seq(technique_name(t), c@),
        ),
{
    let all = all_techniques();
    match category {
        None => all,
        Some(c) => {
            let needle = chars_of(c);
            let ghost keep = |t: Technique| contains_seq(technique_name(t), c@);
            let mut out: Vec<Technique> = Vec::new();
            let mut i: usize = 0;
            while i < all.len()
                invariant
                    all@ == catalog_order(),
                    needle@ == c@,
                    keep == (|t: Technique| contains_seq(technique_name(t), c@)),
                    i <= all@.len(),
                    out@ == all@.take(i as int).filter(keep),
                decreases all@.len() - i,
            {
                let t = all[i];
                let hit = contains_chars(&chars_of(t.name()), &needle);
                proof {
                    assert(all@.take(i + 1).drop_last() =~= all@.take(i as int));
                    reveal(Seq::filter);
                    assert(all@.take(i + 1).last() == t);
                    assert(hit == keep(t));
                    assert(all@.take(i + 1).filter(keep) == (if hit {
                        all@.take(i as int).filter(keep).push(t)
                    } else {
                        all@.take(i as int).filter(keep)
                    }));
                }
                if hit {
                    out.push(t);
                }
                i = i + 1;
            }
            assert(all@.take(i as int) =~= all@);
            out
        },
    }
}

/// Cuts `u` at each comma.
pub fn split_at_commas(u: &Vec<char>) -> (r: Vec<Vec<char>>)
    ensures
        views(r@) == split_commas(u@),
{
    let mut done: Vec<Vec<char>> = Vec::new();
    let mut cur: Vec<char> = Vec::new();
    let mut i: usize = 0;
    assert(u@.take(0) =~= Seq::<char>::empty());
    assert(views(done@).push(cur@) =~= split_commas(u@.take(0)));
    while i < u.len()
        invariant
            i <= u@.len(),
            views(done@).push(cur@) == split_commas(u@.take(i as int)),
        decreases u@.len() - i,
    {
        let c = u[i];
        proof {
            assert(u@.take(i + 1).drop_last() =~= u@.take(i as int));
            assert(u@.take(i + 1).last() == c);
        }
        if c == ',' {
            let ghost old_done = done@;
            done.push(cur);
            cur = Vec::new();
            assert(views(done@) =~= views(old_done).push(views(done@).last()));
            assert(views(done@).push(cur@) =~= split_commas(u@.take(i + 1)));
        } else {
            cur.push(c);
            assert(views(done@).push(cur@) =~= split_commas(u@.take(i + 1)));
        }
        i = i + 1;
    }
    let ghost old_done = done@;
    done.push(cur);
    assert(views(done@) =~= views(old_done).push(views(done@).last()));
    assert(u@.take(i as int) =~= u@);
    done
}

/// Parses a technique selection: `all`, or names separated by commas.
pub fn parse_selection(s: &str) -> (r: Result<Vec<Technique>, BypsError>)
    ensures
        r matches Ok(v) ==> selection_ok(s@) && v@ == selection_of(s@),
        r matches Err(e) ==> !selection_ok(s@),
        r matches Err(BypsError::UnknownTechnique(n)) ==> exists|i: int|
            first_unknown_at(split_commas(s@), i) && split_commas(s@)[i] == n@,
        r matches Err(e) ==> e is UnknownTechnique || e is EmptyTechniqueSet,
        r matches Err(BypsError::EmptyTechniqueSet) ==> forall|i: int|
            0 <= i < split_commas(s@).len() ==> split_commas(s@)[i].len() == 0,
{
    if str_equals(s, "all") {
        return Ok(all_techniques());
    }
    let segs = split_at_commas(&chars_of(s));
    let ghost ss = split_commas(s@);
    assert(segs@.len() == ss.len());
    let mut any = false;
    let mut i: usize = 0;
    while i < segs.len()
        invariant
            views(segs@) == ss,
            s@ != "all"@,
            ss == split_commas(s@),
            i <= segs@.len(),
            forall|j: int| 0 <= j < i ==> ss[j].len() == 0 || is_technique_name(ss[j]),
            any == exists|j: int| 0 <= j < i && ss[j].len() > 0,
        decreases segs@.len() - i,
    {
        assert(ss[i as int] == segs@[i as int]@);
        if segs[i].len() > 0 {
            if Technique::from_chars(&segs[i]).is_none() {
                let n = string_of(&segs[i]);
                proof {
                    assert(first_unknown_at(ss, i as int));
                    assert(ss[i as int] == n@);
                    assert(s@ != "all"@);
                    assert(!(forall|j: int| 0 <= j < ss.len() ==> ss[j].len() == 0 || is_technique_name(ss[j])));
                }
                return Err(BypsError::UnknownTechnique(n));
            }
            any = true;
        }
        i = i + 1;
    }
    if !any {
        return Err(BypsError::EmptyTechniqueSet);
    }
    let all = all_techniques();
    let ghost keep = |t: Technique| ss.contains(technique_name(t));
    let mut out: Vec<Technique> = Vec::new();
    let mut k: usize = 0;
    while k < all.len()
        invariant
            all@ == catalog_order(),
            views(segs@) == ss,
            keep == (|t: Technique| ss.contains(technique_name(t))),
            s@ != "all"@,
            ss == split_commas(s@),
            k <= all@.len(),
            out@ == all@.take(k as int).filter(keep),
        decreases all@.len() - k,
    {
        let t = all[k];
        let name = chars_of(t.name());
        let mut found = false;
        let mut j: usize = 0;
        while j < segs.len()
            invariant
                views(segs@) == ss,
                name@ == technique_name(t),
                j <= segs@.len(),
                found == exists|m: int| 0 <= m < j && ss[m] == technique_name(t),
            decreases segs@.len() - j,
        {
            assert(ss[j as int] == segs@[j as int]@);
            if same_chars(&segs[j], &name) {
                found = true;
            }
            j = j + 1;
        }
        proof {
            assert(all@.take(k + 1).drop_last() =~= all@.take(k as int));
            reveal(Seq::filter);
            assert(all@.take(k + 1).last() == t);
            if found {
                let m = choose|m: int| 0 <= m < j && ss[m] == technique_name(t);
                assert(ss.contains(technique_name(t)));
            } else {
                assert(!ss.contains(technique_name(t)));
            }
            assert(found == keep(t));
            assert(all@.take(k + 1).filter(keep) == (if found {
                all@.take(k as int).filter(keep).push(t)
            } else {
                all@.take(k as int).filter(keep)
            }));
        }
        if found {
            out.push(t);
        }
        k = k + 1;
    }
    assert(all@.take(k as int) =~= all@);
    Ok(out)
}

} // verus!
