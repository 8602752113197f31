//! Properties that hold of the generated fragments across all specifications.

use vstd::prelude::*;

use crate::property::{
    declaration_of, declaration_open, declaration_text, getter_text, notifier_of, notify_clause,
    notify_name_of, parameter_text, setter_name_of, setter_of, summary_of, write_clause,
    PropertySpec,
};

verus! {

/// Without a setter and without a notifier the declaration is exactly
/// `PROPERTY(<type> <name>)`: neither a WRITE nor a NOTIFY clause.
pub proof fn lemma_plain_declaration(p: PropertySpec)
    requires
        !p.settable,
        !p.notifiable,
    ensures
        declaration_of(p) == declaration_open() + p.the_type + seq![' '] + p.the_name + seq![')'],
{
    assert(declaration_of(p) =~= declaration_open() + p.the_type + seq![' '] + p.the_name + seq![
        ')',
    ]);
}

/// The getter is `<type> <name>() const;` whatever the three switches are: two
/// specifications with the same type and name have the same getter.
pub proof fn lemma_getter_ignores_switches(p: PropertySpec, q: PropertySpec)
    requires
        p.the_type == q.the_type,
        p.the_name == q.the_name,
    ensures
        getter_text(p) == getter_text(q),
        getter_text(p) == p.the_type + seq![' '] + p.the_name + seq![
            '(',
            ')',
            ' ',
            'c',
            'o',
            'n',
            's',
            't',
            ';',
        ],
{
}

/// The const-reference parameter is the by-value one with `const ` put in
/// front and the space before the name turned into ` &`; the type and the
/// name are the same text in both, and nothing but `const_ref` decides which
/// of the two comes out.
pub proof fn lemma_parameter_const_ref(p: PropertySpec)
    ensures
        ({
            let by_ref = PropertySpec { const_ref: true, ..p };
            let by_value = PropertySpec { const_ref: false, ..p };
            let plain = parameter_text(by_value);
            let split = p.the_type.len() as int + 1;
            &&& plain == p.the_type + seq![' '] + p.the_name
            &&& parameter_text(by_ref) == seq!['c', 'o', 'n', 's', 't', ' '] + plain.subrange(0, split)
                + seq!['&'] + plain.subrange(split, plain.len() as int)
            &&& parameter_text(p) == if p.const_ref {
                parameter_text(by_ref)
            } else {
                plain
            }
        }),
{
    let by_ref = PropertySpec { const_ref: true, ..p };
    let by_value = PropertySpec { const_ref: false, ..p };
    let plain = parameter_text(by_value);
    let split = p.the_type.len() as int + 1;
    assert(plain.subrange(0, split) =~= p.the_type + seq![' ']);
    assert(plain.subrange(split, plain.len() as int) =~= p.the_name);
    assert(parameter_text(by_ref) =~= seq!['c', 'o', 'n', 's', 't', ' '] + plain.subrange(0, split)
        + seq!['&'] + plain.subrange(split, plain.len() as int));
}

/// Generation has no hidden state: equal specifications give equal fragments,
/// so generating twice from one specification gives the same text twice.
pub proof fn lemma_generation_deterministic(p: PropertySpec, q: PropertySpec)
    requires
        p == q,
    ensures
        declaration_of(p) == declaration_of(q),
        getter_text(p) == getter_text(q),
        parameter_text(p) == parameter_text(q),
        setter_of(p) == setter_of(q),
        notifier_of(p) == notifier_of(q),
        summary_of(p) == summary_of(q),
{
}

/// `w` stands in `s` from index `i` on.
pub open spec fn occurs_at(s: Seq<char>, w: Seq<char>, i: int) -> bool {
    0 <= i && i + w.len() <= s.len() && s.subrange(i, i + w.len()) == w
}

/// `w` stands somewhere in `s`.
pub open spec fn contains_text(s: Seq<char>, w: Seq<char>) -> bool {
    exists|i: int| occurs_at(s, w, i)
}

/// The keyword of the setter clause.
pub open spec fn write_keyword() -> Seq<char> {
    seq!['W', 'R', 'I', 'T', 'E']
}

/// Where the setter clause starts in a declaration: after `PROPERTY(`, the
/// type, a space and the name.
pub open spec fn write_clause_start(p: PropertySpec) -> int {
    (declaration_open().len() + p.the_type.len() + 1 + p.the_name.len()) as int
}

/// A keyword that starts inside `part`, where `part` stands in `d` at `off` and
/// is followed by a character that the keyword does not hold, lies wholly in
/// `part`.
proof fn lemma_keyword_in_part(d: Seq<char>, part: Seq<char>, off: int, k: int)
    requires
        0 <= off,
        off + part.len() < d.len(),
        d.subrange(off, off + part.len()) == part,
        !write_keyword().contains(d[off + part.len()]),
        off <= k < off + part.len(),
        occurs_at(d, write_keyword(), k),
    ensures
        contains_text(part, write_keyword()),
{
    let kw = write_keyword();
    let end = off + part.len();
    if k + kw.len() > end {
        let j = end - k;
        assert(0 < j < kw.len());
        assert(d.subrange(k, k + kw.len())[j] == d[end]);
        assert(kw[j] == d[end]);
        assert(kw.contains(d[end]));
    }
    assert(part.subrange(k - off, k - off + kw.len()) =~= d.subrange(k, k + kw.len()));
    assert(occurs_at(part, kw, k - off));
}

/// No character of `s` from `lo` up to `hi` is the first letter of the keyword.
spec fn no_keyword_start(s: Seq<char>, lo: int, hi: int) -> bool {
    forall|j: int| lo <= j < hi ==> s[j] != 'W'
}

/// Where the keyword `WRITE` can start in a text laid out as a declaration
/// with a setter clause: only at the clause's own keyword.
proof fn lemma_keyword_position(
    d: Seq<char>,
    t: Seq<char>,
    n: Seq<char>,
    s: Seq<char>,
    m: Seq<char>,
    notifiable: bool,
    k: int,
)
    requires
        d.subrange(9, 9 + t.len() as int) == t,
        d[9 + t.len() as int] == ' ',
        d.subrange(10 + t.len() as int, 10 + t.len() as int + n.len() as int) == n,
        d.subrange(10 + t.len() as int + n.len() as int, 17 + t.len() as int + n.len() as int) == seq![
            ' ',
            'W',
            'R',
            'I',
            'T',
            'E',
            ' ',
        ],
        d.subrange(17 + t.len() as int + n.len() as int, 17 + t.len() as int + n.len() as int + s.len() as int) == s,
        no_keyword_start(d, 0, 9),
        notifiable ==> {
            let q0 = 17 + t.len() as int + n.len() as int + s.len() as int;
            &&& d[q0] == ' '
            &&& no_keyword_start(d, q0, q0 + 8)
            &&& d.subrange(q0 + 8, q0 + 8 + m.len() as int) == m
            &&& d[q0 + 8 + m.len() as int] == ')'
            &&& d.len() == q0 + 9 + m.len() as int
        },
        !notifiable ==> {
            let q0 = 17 + t.len() as int + n.len() as int + s.len() as int;
            &&& d[q0] == ')'
            &&& d.len() == q0 + 1
        },
        !contains_text(t, write_keyword()),
        !contains_text(n, write_keyword()),
        !contains_text(s, write_keyword()),
        notifiable ==> !contains_text(m, write_keyword()),
        occurs_at(d, write_keyword(), k),
    ensures
        k == 11 + t.len() as int + n.len() as int,
{
    let kw = write_keyword();
    assert(!kw.contains(' ')) by {
        if kw.contains(' ') {
            let j = choose|j: int| 0 <= j < kw.len() && kw[j] == ' ';
            assert(kw[j] != ' ');
        }
    }
    assert(!kw.contains(')')) by {
        if kw.contains(')') {
            let j = choose|j: int| 0 <= j < kw.len() && kw[j] == ')';
            assert(kw[j] != ')');
        }
    }
    assert(d[k] == 'W') by {
        assert(d.subrange(k, k + kw.len())[0] == d[k]);
    }
    let n0 = 10 + t.len() as int;
    let p0 = n0 + n.len() as int;
    let s0 = p0 + 7;
    let q0 = s0 + s.len() as int;
    if k < 9 {
    } else if k < 9 + t.len() as int {
        lemma_keyword_in_part(d, t, 9, k);
    } else if k < n0 {
    } else if k < p0 {
        lemma_keyword_in_part(d, n, n0, k);
    } else if k < s0 {
        assert(d[k] == d.subrange(p0, s0)[k - p0]);
    } else if k < q0 {
        lemma_keyword_in_part(d, s, s0, k);
    } else if notifiable && k < q0 + 8 {
    } else if notifiable && k < q0 + 8 + m.len() as int {
        lemma_keyword_in_part(d, m, q0 + 8, k);
    } else {
        assert(k + kw.len() <= d.len());
    }
}

/// How a settable property's declaration is laid out: `PROPERTY(`, the
/// type, a space, the name, the setter clause, then the notifier clause if
/// any and `)`.
proof fn lemma_declaration_layout(p: PropertySpec, setter_name: Seq<char>, notify_name: Seq<char>)
    requires
        p.settable,
    ensures
        ({
            let d = declaration_text(p, setter_name, notify_name);
            let t = p.the_type;
            let n = p.the_name;
            let p0 = write_clause_start(p);
            let q0 = 17 + t.len() as int + n.len() as int + setter_name.len() as int;
            &&& p0 == 10 + t.len() as int + n.len() as int
            &&& d.subrange(p0, p0 + write_clause(setter_name).len()) == write_clause(setter_name)
            &&& d.subrange(9, 9 + t.len() as int) == t
            &&& d[9 + t.len() as int] == ' '
            &&& d.subrange(10 + t.len() as int, 10 + t.len() as int + n.len() as int) == n
            &&& d.subrange(p0, p0 + 7) == seq![' ', 'W', 'R', 'I', 'T', 'E', ' ']
            &&& d.subrange(p0 + 7, p0 + 7 + setter_name.len() as int) == setter_name
            &&& no_keyword_start(d, 0, 9)
            &&& p.notifiable ==> {
                &&& d[q0] == ' '
                &&& no_keyword_start(d, q0, q0 + 8)
                &&& d.subrange(q0 + 8, q0 + 8 + notify_name.len() as int) == notify_name
                &&& d[q0 + 8 + notify_name.len() as int] == ')'
                &&& d.len() == q0 + 9 + notify_name.len() as int
            }
            &&& !p.notifiable ==> {
                &&& d[q0] == ')'
                &&& d.len() == q0 + 1
            }
        }),
{
    let d = declaration_text(p, setter_name, notify_name);
    let w = write_clause(setter_name);
    let t = p.the_type;
    let n = p.the_name;
    let head = declaration_open() + t + seq![' '] + n;
    let tail = (if p.notifiable {
        notify_clause(notify_name)
    } else {
        Seq::empty()
    }) + seq![')'];
    let p0 = write_clause_start(p);
    assert(d =~= head + w + tail);
    assert(d.subrange(p0, p0 + w.len()) =~= w);
    assert(d.subrange(p0, p0 + 7) =~= seq![' ', 'W', 'R', 'I', 'T', 'E', ' ']);
    assert(d.subrange(9, 9 + t.len() as int) =~= t);
    assert(d.subrange(10 + t.len() as int, 10 + t.len() as int + n.len() as int) =~= n);
    assert(d.subrange(p0 + 7, p0 + 7 + setter_name.len() as int) =~= setter_name);
    let q0 = p0 + 7 + setter_name.len() as int;
    if p.notifiable {
        assert(d.subrange(q0 + 8, q0 + 8 + notify_name.len() as int) =~= notify_name);
    }
}

/// An occurrence of the setter clause starts with a space and the keyword.
proof fn lemma_clause_holds_keyword(d: Seq<char>, setter_name: Seq<char>, i: int)
    requires
        occurs_at(d, write_clause(setter_name), i),
    ensures
        occurs_at(d, write_keyword(), i + 1),
{
    let w = write_clause(setter_name);
    assert(d.subrange(i + 1, i + 6) =~= d.subrange(i, i + w.len()).subrange(1, 6));
    assert(w.subrange(1, 6) =~= write_keyword());
}

/// Where the setter clause is found in a declaration whose parts do not hold
/// the keyword, it is found at its own place.
proof fn lemma_clause_position(
    p: PropertySpec,
    setter_name: Seq<char>,
    notify_name: Seq<char>,
    i: int,
)
    requires
        p.settable,
        !contains_text(p.the_type, write_keyword()),
        !contains_text(p.the_name, write_keyword()),
        !contains_text(setter_name, write_keyword()),
        p.notifiable ==> !contains_text(notify_name, write_keyword()),
        occurs_at(declaration_text(p, setter_name, notify_name), write_clause(setter_name), i),
    ensures
        i == write_clause_start(p),
{
    let d = declaration_text(p, setter_name, notify_name);
    lemma_declaration_layout(p, setter_name, notify_name);
    lemma_clause_holds_keyword(d, setter_name, i);
    lemma_keyword_position(
        d,
        p.the_type,
        p.the_name,
        setter_name,
        notify_name,
        p.notifiable,
        i + 1,
    );
}

/// A settable property's declaration, built from any setter and notifier
/// names, holds its setter clause once, right after the name, where the texts
/// that the declaration is made of do not hold the keyword `WRITE`.
pub proof fn lemma_single_write_clause_with(p: PropertySpec, setter_name: Seq<char>, notify_name: Seq<char>)
    requires
        p.settable,
        !contains_text(p.the_type, write_keyword()),
        !contains_text(p.the_name, write_keyword()),
        !contains_text(setter_name, write_keyword()),
        p.notifiable ==> !contains_text(notify_name, write_keyword()),
    ensures
        forall|i: int|
            occurs_at(declaration_text(p, setter_name, notify_name), write_clause(setter_name), i)
                <==> i == write_clause_start(p),
{
    lemma_declaration_layout(p, setter_name, notify_name);
    assert forall|i: int|
        occurs_at(declaration_text(p, setter_name, notify_name), write_clause(setter_name), i)
            implies i == write_clause_start(p) by {
        lemma_clause_position(p, setter_name, notify_name, i);
    }
}

/// A settable property's declaration holds its ` WRITE <setter>` clause
/// exactly once, right after `PROPERTY(<type> <name>`, where neither the type,
/// the name, the setter's name nor (for a notifiable property) the notifier's
/// name holds the keyword `WRITE`.
pub proof fn lemma_single_write_clause(p: PropertySpec)
    requires
        p.settable,
        !contains_text(p.the_type, write_keyword()),
        !contains_text(p.the_name, write_keyword()),
        !contains_text(setter_name_of(p.the_name), write_keyword()),
        p.notifiable ==> !contains_text(notify_name_of(p.the_name), write_keyword()),
    ensures
        forall|i: int|
            occurs_at(declaration_of(p), write_clause(setter_name_of(p.the_name)), i) <==> i
                == write_clause_start(p),
{
    lemma_single_write_clause_with(p, setter_name_of(p.the_name), notify_name_of(p.the_name));
}

} // verus!
