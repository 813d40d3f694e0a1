//! Query ordering: the closed set of sortable columns, the direction, the
//! parse of a combined `column:direction` string (defaulting to id
//! descending on anything malformed or unrecognized, so no caller-supplied
//! text ever reaches the query engine unchecked), lexicographic string
//! comparison, and a verified sort of content entities.

use vstd::prelude::*;
use vstd::multiset::Multiset;
use vstd::string::StrSliceExecFns;
use crate::field::str_eq;
use crate::model::{Content, ContentV, contents_v};

verus! {

/// The closed allow-list of sortable columns.
#[derive(Clone, Copy, Debug, PartialEq, Eq, Structural)]
pub enum OrderColumn {
    Id,
    Name,
    Identifier,
}

#[derive(Clone, Copy, Debug, PartialEq, Eq, Structural)]
pub enum OrderDirection {
    Asc,
    Desc,
}

/// A fully parsed ordering: one column of the allow-list and a direction.
#[derive(Clone, Copy, Debug, PartialEq, Eq, Structural)]
pub struct ContentOrder {
    pub column: OrderColumn,
    pub direction: OrderDirection,
}

/// The ordering used when no valid override is supplied: id descending.
pub open spec fn default_order() -> ContentOrder {
    ContentOrder { column: OrderColumn::Id, direction: OrderDirection::Desc }
}

/// Lexicographic less-or-equal on character sequences, by code point.
pub open spec fn lex_le(a: Seq<char>, b: Seq<char>) -> bool
    decreases a.len(),
{
    if a.len() == 0 {
        true
    } else if b.len() == 0 {
        false
    } else if (a[0] as u32) < (b[0] as u32) {
        true
    } else if (b[0] as u32) < (a[0] as u32) {
        false
    } else {
        lex_le(a.drop_first(), b.drop_first())
    }
}

pub proof fn lemma_lex_le_total(a: Seq<char>, b: Seq<char>)
    ensures
        lex_le(a, b) || lex_le(b, a),
    decreases a.len(),
{
    if a.len() > 0 && b.len() > 0 && !((a[0] as u32) < (b[0] as u32)) && !((b[0] as u32) < (
    a[0] as u32)) {
        lemma_lex_le_total(a.drop_first(), b.drop_first());
    }
}

pub proof fn lemma_lex_le_trans(a: Seq<char>, b: Seq<char>, c: Seq<char>)
    requires
        lex_le(a, b),
        lex_le(b, c),
    ensures
        lex_le(a, c),
    decreases a.len(),
{
    if a.len() > 0 && b.len() > 0 && c.len() > 0 && !((a[0] as u32) < (b[0] as u32)) && !((
    b[0] as u32) < (a[0] as u32)) && !((b[0] as u32) < (c[0] as u32)) && !((c[0] as u32) < (
    b[0] as u32)) {
        lemma_lex_le_trans(a.drop_first(), b.drop_first(), c.drop_first());
    }
}

/// Whether `a` sorts at-or-before `b` on the given column, ascending.
pub open spec fn key_le(col: OrderColumn, a: ContentV, b: ContentV) -> bool {
    match col {
        OrderColumn::Id => a.id <= b.id,
        OrderColumn::Name => lex_le(a.name, b.name),
        OrderColumn::Identifier => lex_le(a.identifier, b.identifier),
    }
}

/// Whether `a` sorts at-or-before `b` under the full ordering.
pub open spec fn content_le(o: ContentOrder, a: ContentV, b: ContentV) -> bool {
    match o.direction {
        OrderDirection::Asc => key_le(o.column, a, b),
        OrderDirection::Desc => key_le(o.column, b, a),
    }
}

/// A sequence is sorted when every earlier element sorts at-or-before
/// every later one.
pub open spec fn sorted_by_order(s: Seq<ContentV>, o: ContentOrder) -> bool {
    forall|i: int, j: int|
        #![trigger s[i], s[j]]
        0 <= i < j < s.len() ==> content_le(o, s[i], s[j])
}

pub proof fn lemma_content_le_total(o: ContentOrder, a: ContentV, b: ContentV)
    ensures
        content_le(o, a, b) || content_le(o, b, a),
{
    match o.column {
        OrderColumn::Id => {},
        OrderColumn::Name => {
            lemma_lex_le_total(a.name, b.name);
        },
        OrderColumn::Identifier => {
            lemma_lex_le_total(a.identifier, b.identifier);
        },
    }
}

pub proof fn lemma_content_le_trans(o: ContentOrder, a: ContentV, b: ContentV, c: ContentV)
    requires
        content_le(o, a, b),
        content_le(o, b, c),
    ensures
        content_le(o, a, c),
{
    match o.column {
        OrderColumn::Id => {},
        OrderColumn::Name => {
            match o.direction {
                OrderDirection::Asc => {
                    lemma_lex_le_trans(a.name, b.name, c.name);
                },
                OrderDirection::Desc => {
                    lemma_lex_le_trans(c.name, b.name, a.name);
                },
            }
        },
        OrderColumn::Identifier => {
            match o.direction {
                OrderDirection::Asc => {
                    lemma_lex_le_trans(a.identifier, b.identifier, c.identifier);
                },
                OrderDirection::Desc => {
                    lemma_lex_le_trans(c.identifier, b.identifier, a.identifier);
                },
            }
        },
    }
}

/// Lexicographic comparison of two strings, by character.
#[verifier::loop_isolation(false)]
pub fn str_le(a: &String, b: &String) -> (r: bool)
    ensures
        r == lex_le(a@, b@),
{
    let alen = a.as_str().unicode_len();
    let blen = b.as_str().unicode_len();
    let mut i: usize = 0;
    proof {
        assert(a@.skip(0) =~= a@);
        assert(b@.skip(0) =~= b@);
    }
    loop
        invariant
            0 <= i <= alen,
            i <= blen,
            alen == a@.len(),
            blen == b@.len(),
            lex_le(a@, b@) == lex_le(a@.skip(i as int), b@.skip(i as int)),
        decreases alen - i,
    {
        if i == alen {
            return true;
        }
        if i == blen {
            proof {
                assert(a@.skip(i as int).len() > 0);
            }
            return false;
        }
        let ca = a.as_str().get_char(i);
        let cb = b.as_str().get_char(i);
        proof {
            assert(a@.skip(i as int)[0] == a@[i as int]);
            assert(b@.skip(i as int)[0] == b@[i as int]);
        }
        if (ca as u32) < (cb as u32) {
            return true;
        }
        if (cb as u32) < (ca as u32) {
            return false;
        }
        proof {
            assert(a@.skip(i as int).drop_first() =~= a@.skip(i as int + 1));
            assert(b@.skip(i as int).drop_first() =~= b@.skip(i as int + 1));
        }
        i = i + 1;
    }
}

/// Compares two content entities under the full ordering.
pub fn content_le_exec(o: ContentOrder, a: &Content, b: &Content) -> (r: bool)
    ensures
        r == content_le(o, a@, b@),
{
    let (x, y) = match o.direction {
        OrderDirection::Asc => (a, b),
        OrderDirection::Desc => (b, a),
    };
    match o.column {
        OrderColumn::Id => x.id <= y.id,
        OrderColumn::Name => str_le(&x.name, &y.name),
        OrderColumn::Identifier => str_le(&x.identifier, &y.identifier),
    }
}

/// Sorts content entities under the given ordering: the result holds
/// exactly the same entities, in sorted order.
#[verifier::loop_isolation(false)]
pub fn sort_contents(v: Vec<Content>, o: ContentOrder) -> (r: Vec<Content>)
    ensures
        contents_v(r@).to_multiset() == contents_v(v@).to_multiset(),
        sorted_by_order(contents_v(r@), o),
{
    broadcast use vstd::seq_lib::to_multiset_insert;
    broadcast use vstd::seq_lib::to_multiset_build;

    let mut input = v;
    let mut out: Vec<Content> = Vec::new();
    proof {
        assert(contents_v(out@) =~= Seq::<ContentV>::empty());
        contents_v(out@).to_multiset_ensures();
        assert(contents_v(out@).to_multiset() =~= Multiset::<ContentV>::empty());
        assert(contents_v(out@).to_multiset().add(contents_v(input@).to_multiset())
            =~= contents_v(input@).to_multiset());
    }
    loop
        invariant
            contents_v(out@).to_multiset().add(contents_v(input@).to_multiset()) == contents_v(
                v@,
            ).to_multiset(),
            sorted_by_order(contents_v(out@), o),
        decreases input@.len(),
    {
        let ghost pre_input = contents_v(input@);
        let x = match input.pop() {
            Some(x) => x,
            None => {
                proof {
                    assert(contents_v(input@) =~= Seq::<ContentV>::empty());
                    contents_v(input@).to_multiset_ensures();
                    assert(contents_v(input@).to_multiset() =~= Multiset::<ContentV>::empty());
                    assert(contents_v(out@).to_multiset().add(Multiset::<ContentV>::empty())
                        =~= contents_v(out@).to_multiset());
                }
                return out;
            },
        };
        proof {
            assert(contents_v(input@) =~= pre_input.drop_last());
            assert(pre_input =~= contents_v(input@).push(x@));
            assert(pre_input.to_multiset() =~= contents_v(input@).to_multiset().insert(x@));
        }
        let n = out.len();
        let mut pos: usize = 0;
        while pos < n
            invariant
                pos <= n,
                n == out@.len(),
                forall|k: int| #![trigger contents_v(out@)[k]]
                    0 <= k < pos ==> content_le(o, contents_v(out@)[k], x@),
            decreases n - pos,
        {
            if !content_le_exec(o, &out[pos], &x) {
                break;
            }
            proof {
                assert(contents_v(out@)[pos as int] == out@[pos as int]@);
            }
            pos = pos + 1;
        }
        proof {
            let ov = contents_v(out@);
            let xv = x@;
            let p = pos as int;
            if p < ov.len() {
                assert(!content_le(o, ov[p], xv));
                lemma_content_le_total(o, ov[p], xv);
                assert(content_le(o, xv, ov[p]));
            }
            let nv = ov.insert(p, xv);
            assert forall|i: int, j: int|
                #![trigger nv[i], nv[j]]
                0 <= i < j < nv.len() implies content_le(o, nv[i], nv[j]) by {
                if i < p && j < p {
                    assert(nv[i] == ov[i] && nv[j] == ov[j]);
                } else if i < p && j == p {
                    assert(nv[i] == ov[i]);
                } else if i < p && j > p {
                    assert(nv[i] == ov[i] && nv[j] == ov[j - 1]);
                } else if i == p && j > p {
                    assert(nv[j] == ov[j - 1]);
                    if p < ov.len() {
                        if j - 1 == p {
                            assert(content_le(o, xv, ov[p]));
                        } else {
                            assert(content_le(o, ov[p], ov[j - 1]));
                            lemma_content_le_trans(o, xv, ov[p], ov[j - 1]);
                        }
                    }
                } else {
                    assert(nv[i] == ov[i - 1] && nv[j] == ov[j - 1]);
                }
            }
        }
        let ghost pre_out = contents_v(out@);
        out.insert(pos, x);
        proof {
            assert(contents_v(out@) =~= pre_out.insert(pos as int, x@));
            assert(contents_v(out@).to_multiset() =~= pre_out.to_multiset().insert(x@));
            assert(contents_v(out@).to_multiset().add(contents_v(input@).to_multiset())
                =~= contents_v(v@).to_multiset());
        }
    }
}

/// How many separators the order string holds.
pub open spec fn colon_count(s: Seq<char>) -> nat
    decreases s.len(),
{
    if s.len() == 0 {
        0
    } else {
        (if s[0] == ':' {
            1nat
        } else {
            0nat
        }) + colon_count(s.drop_first())
    }
}

/// The position of the first separator (the length when there is none).
pub open spec fn first_colon(s: Seq<char>) -> int
    decreases s.len(),
{
    if s.len() == 0 {
        0
    } else if s[0] == ':' {
        0
    } else {
        1 + first_colon(s.drop_first())
    }
}

/// Which column an order string names; anything unrecognized defaults to
/// the id column, so only allow-listed columns ever reach the query.
pub open spec fn column_of(s: Seq<char>) -> OrderColumn {
    if s == "id"@ {
        OrderColumn::Id
    } else if s == "name"@ {
        OrderColumn::Name
    } else if s == "identifier"@ {
        OrderColumn::Identifier
    } else {
        OrderColumn::Id
    }
}

/// Which direction an order string names; anything unrecognized defaults
/// to descending.
pub open spec fn direction_of(s: Seq<char>) -> OrderDirection {
    if s == "asc"@ {
        OrderDirection::Asc
    } else if s == "desc"@ {
        OrderDirection::Desc
    } else {
        OrderDirection::Desc
    }
}

/// The ordering a combined `column:direction` string denotes. A string
/// without exactly one separator carries no override and denotes the
/// default ordering.
pub open spec fn order_of(s: Seq<char>) -> ContentOrder {
    if colon_count(s) == 1 {
        let i = first_colon(s);
        ContentOrder { column: column_of(s.take(i)), direction: direction_of(s.skip(i + 1)) }
    } else {
        default_order()
    }
}

pub proof fn lemma_colon_count_push(s: Seq<char>, x: char)
    ensures
        colon_count(s.push(x)) == colon_count(s) + (if x == ':' {
            1nat
        } else {
            0nat
        }),
    decreases s,
{
    if s.len() == 0 {
        assert(s.push(x)[0] == x);
        assert(s.push(x).drop_first() =~= s);
    } else {
        assert(s.push(x)[0] == s[0]);
        assert(s.push(x).drop_first() =~= s.drop_first().push(x));
        lemma_colon_count_push(s.drop_first(), x);
    }
}

/// When position `i` is the first separator of a scan, `first_colon`
/// agrees with `i`.
pub proof fn lemma_first_colon_at(s: Seq<char>, i: int)
    requires
        0 <= i < s.len(),
        s[i] == ':',
        forall|j: int| 0 <= j < i ==> (#[trigger] s[j]) != ':',
    ensures
        first_colon(s) == i,
    decreases i,
{
    if i > 0 {
        assert(forall|j: int| 0 <= j < s.drop_first().len() ==> s.drop_first()[j] == s[j + 1]);
        lemma_first_colon_at(s.drop_first(), i - 1);
    }
}

/// Parses a combined `column:direction` order string, defaulting to id
/// descending when the string is absent of exactly one separator or names
/// anything outside the allow-list.
#[verifier::loop_isolation(false)]
pub fn parse_order(s: &String) -> (r: ContentOrder)
    ensures
        r == order_of(s@),
{
    let n = s.as_str().unicode_len();
    let mut cnt: usize = 0;
    let mut first: usize = 0;
    let mut seen: bool = false;
    proof {
        assert(s@.take(0) =~= Seq::<char>::empty());
    }
    for i in 0..n
        invariant
            n == s@.len(),
            cnt <= i,
            cnt as nat == colon_count(s@.take(i as int)),
            seen ==> first < i && s@[first as int] == ':' && (forall|j: int|
                0 <= j < first ==> (#[trigger] s@[j]) != ':'),
            !seen ==> forall|j: int| 0 <= j < i ==> (#[trigger] s@[j]) != ':',
            seen == (cnt > 0),
    {
        let c = s.as_str().get_char(i);
        proof {
            assert(s@.take(i as int + 1) =~= s@.take(i as int).push(s@[i as int]));
            lemma_colon_count_push(s@.take(i as int), s@[i as int]);
        }
        if c == ':' {
            if !seen {
                first = i;
                seen = true;
            }
            cnt = cnt + 1;
        }
    }
    proof {
        assert(s@.take(n as int) =~= s@);
    }
    if cnt == 1 {
        proof {
            lemma_first_colon_at(s@, first as int);
        }
        let col_s = s.as_str().substring_char(0, first);
        let dir_s = s.as_str().substring_char(first + 1, n);
        proof {
            assert(col_s@ =~= s@.take(first as int));
            assert(dir_s@ =~= s@.skip(first as int + 1));
        }
        let col_string = col_s.to_owned();
        let dir_string = dir_s.to_owned();
        let column = if str_eq(&col_string, "id") {
            OrderColumn::Id
        } else if str_eq(&col_string, "name") {
            OrderColumn::Name
        } else if str_eq(&col_string, "identifier") {
            OrderColumn::Identifier
        } else {
            OrderColumn::Id
        };
        let direction = if str_eq(&dir_string, "asc") {
            OrderDirection::Asc
        } else if str_eq(&dir_string, "desc") {
            OrderDirection::Desc
        } else {
            OrderDirection::Desc
        };
        ContentOrder { column, direction }
    } else {
        ContentOrder { column: OrderColumn::Id, direction: OrderDirection::Desc }
    }
}

} // verus!
