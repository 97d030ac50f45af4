//! Rendering of message templates.
//!
//! A template is plain text in which `${name}` stands for the value of the
//! attribute `name`. A placeholder runs from `${` to the first `}` after it.
//! Rendering reads the template once from left to right: a placeholder whose
//! name is bound is replaced by the bound value, and every other character is
//! copied. Substituted values are never read again.

use vstd::prelude::*;
use crate::attributes::Attributes;
use crate::text::characters;

verus! {

/// Position of the first `}` of `template` at or after `from`, or the length
/// of `template` if there is none.
pub open spec fn closing(template: Seq<char>, from: nat) -> nat
    decreases template.len() - from,
{
    if from >= template.len() {
        template.len()
    } else if template[from as int] == '}' {
        from
    } else {
        closing(template, from + 1)
    }
}

/// Whether `template` begins with a complete placeholder.
pub open spec fn starts_with_placeholder(template: Seq<char>) -> bool {
    &&& template.len() >= 2
    &&& template[0] == '$'
    &&& template[1] == '{'
    &&& closing(template, 2) < template.len()
}

/// The name of the placeholder that `template` begins with.
pub open spec fn leading_name(template: Seq<char>) -> Seq<char>
    recommends
        starts_with_placeholder(template),
{
    template.subrange(2, closing(template, 2) as int)
}

/// Whether `template` begins with a placeholder whose name is bound.
pub open spec fn starts_with_bound(
    template: Seq<char>,
    attributes: Map<Seq<char>, Seq<char>>,
) -> bool {
    starts_with_placeholder(template) && attributes.contains_key(leading_name(template))
}

/// The text that `template` renders to under `attributes`.
pub open spec fn rendered(template: Seq<char>, attributes: Map<Seq<char>, Seq<char>>) -> Seq<char>
    decreases template.len(),
{
    if template.len() == 0 {
        template
    } else if starts_with_bound(template, attributes) {
        attributes[leading_name(template)] + rendered(
            template.skip(closing(template, 2) as int + 1),
            attributes,
        )
    } else {
        seq![template[0]] + rendered(template.skip(1), attributes)
    }
}

/// Whether some position of `template` begins a placeholder whose name is
/// bound.
pub open spec fn mentions_bound(template: Seq<char>, attributes: Map<Seq<char>, Seq<char>>) -> bool {
    exists|i: int|
        0 <= i < template.len() && #[trigger] starts_with_bound(template.skip(i), attributes)
}

proof fn lemma_closing_bounds(template: Seq<char>, from: nat)
    requires
        from <= template.len(),
    ensures
        from <= closing(template, from) <= template.len(),
        closing(template, from) < template.len() ==> template[closing(template, from) as int]
            == '}',
        forall|k: int| from <= k < closing(template, from) ==> template[k] != '}',
    decreases template.len() - from,
{
    if from < template.len() && template[from as int] != '}' {
        lemma_closing_bounds(template, from + 1);
    }
}

proof fn lemma_closing_found(template: Seq<char>, from: nat, at: nat)
    requires
        from <= at < template.len(),
        template[at as int] == '}',
        forall|k: int| from <= k < at ==> template[k] != '}',
    ensures
        closing(template, from) == at,
    decreases at - from,
{
    if from < at {
        lemma_closing_found(template, from + 1, at);
    }
}

/// The placeholder that stands for `name`.
pub open spec fn placeholder(name: Seq<char>) -> Seq<char> {
    seq!['$', '{'] + name + seq!['}']
}

/// A template in which no placeholder with a bound name begins renders to
/// itself: what is not bound is left as it is written.
pub proof fn lemma_unbound_left_literal(template: Seq<char>, attributes: Map<Seq<char>, Seq<char>>)
    requires
        !mentions_bound(template, attributes),
    ensures
        rendered(template, attributes) == template,
    decreases template.len(),
{
    if template.len() > 0 {
        let rest = template.skip(1);
        assert(template.skip(0) =~= template);
        assert(!starts_with_bound(template.skip(0), attributes));
        assert forall|i: int| 0 <= i < rest.len() implies !#[trigger] starts_with_bound(
            rest.skip(i),
            attributes,
        ) by {
            assert(rest.skip(i) =~= template.skip(i + 1));
        }
        lemma_unbound_left_literal(rest, attributes);
        assert(seq![template[0]] + rest =~= template);
    }
}

/// With no attribute bound, every template renders to itself.
pub proof fn lemma_no_attributes(template: Seq<char>)
    ensures
        rendered(template, Map::<Seq<char>, Seq<char>>::empty()) == template,
{
    lemma_unbound_left_literal(template, Map::<Seq<char>, Seq<char>>::empty());
}

/// A placeholder of a bound name renders to the value of the name, and what
/// follows it is rendered by itself. So every occurrence of a placeholder
/// gives the same text, wherever it stands.
pub proof fn lemma_bound_replaced(
    name: Seq<char>,
    rest: Seq<char>,
    attributes: Map<Seq<char>, Seq<char>>,
)
    requires
        attributes.contains_key(name),
        !name.contains('}'),
    ensures
        rendered(placeholder(name) + rest, attributes) == attributes[name] + rendered(
            rest,
            attributes,
        ),
{
    let template = placeholder(name) + rest;
    let end = (name.len() + 2) as nat;
    assert forall|k: int| 2 <= k < end implies template[k] != '}' by {
        assert(template[k] == name[k - 2]);
    }
    lemma_closing_found(template, 2, end);
    assert(leading_name(template) =~= name);
    assert(template.skip(end as int + 1) =~= rest);
}

/// A character that begins no bound placeholder is copied, and what follows
/// it is rendered by itself.
pub proof fn lemma_literal_copied(
    first: char,
    rest: Seq<char>,
    attributes: Map<Seq<char>, Seq<char>>,
)
    requires
        !starts_with_bound(seq![first] + rest, attributes),
    ensures
        rendered(seq![first] + rest, attributes) == seq![first] + rendered(rest, attributes),
{
    assert((seq![first] + rest).skip(1) =~= rest);
}

/// Renders `template`, replacing each placeholder whose name `attributes`
/// binds by the bound value and copying everything else.
pub fn render(template: &str, attributes: &Attributes) -> (text: String)
    ensures
        text@ == rendered(template@, attributes@),
{
    let source = characters(template);
    let n: usize = source.len();
    let mut text = String::new();
    let mut i: usize = 0;
    proof {
        assert(source@.skip(0) =~= source@);
        assert(text@ + rendered(source@, attributes@) =~= rendered(source@, attributes@));
    }
    while i < n
        invariant
            n == source.len(),
            source@ == template@,
            i <= n,
            text@ + rendered(source@.skip(i as int), attributes@) == rendered(
                source@,
                attributes@,
            ),
        decreases n - i,
    {
        let ghost rest = source@.skip(i as int);
        let mut replaced = false;
        if source[i] == '$' && n - i >= 2 && source[i + 1] == '{' {
            let mut j: usize = i + 2;
            while j < n && source[j] != '}'
                invariant
                    n == source.len(),
                    i + 2 <= j <= n,
                    rest == source@.skip(i as int),
                    closing(rest, (j - i) as nat) == closing(rest, 2),
                decreases n - j,
            {
                j = j + 1;
            }
            proof {
                lemma_closing_bounds(rest, 2);
            }
            if j < n {
                assert(closing(rest, 2) == j - i);
                let name = name_between(&source, i + 2, j);
                assert(name@ =~= leading_name(rest));
                match attributes.get(name.as_str()) {
                    Some(value) => {
                        text.append(value);
                        proof {
                            assert(rest.skip(j - i + 1) =~= source@.skip(j + 1));
                            assert(starts_with_bound(rest, attributes@));
                        }
                        i = j + 1;
                        replaced = true;
                    },
                    None => {},
                }
            }
        }
        if !replaced {
            proof {
                assert(!starts_with_bound(rest, attributes@));
                assert(rest.skip(1) =~= source@.skip(i + 1));
                assert(text@.push(source@[i as int]) + rendered(rest.skip(1), attributes@)
                    =~= text@ + (seq![rest[0]] + rendered(rest.skip(1), attributes@)));
            }
            text.push(source[i]);
            i = i + 1;
        }
    }
    proof {
        assert(source@.skip(n as int) =~= Seq::<char>::empty());
        assert(text@ + Seq::<char>::empty() =~= text@);
    }
    text
}

/// The characters of `source` from `from` up to `to`, as a string.
fn name_between(source: &Vec<char>, from: usize, to: usize) -> (name: String)
    requires
        from <= to <= source.len(),
    ensures
        name@ == source@.subrange(from as int, to as int),
{
    let mut name = String::new();
    let mut k: usize = from;
    while k < to
        invariant
            from <= k <= to <= source.len(),
            name@ == source@.subrange(from as int, k as int),
        decreases to - k,
    {
        name.push(source[k]);
        k = k + 1;
        proof {
            assert(source@.subrange(from as int, k as int) =~= source@.subrange(
                from as int,
                k - 1,
            ).push(source@[k - 1]));
        }
    }
    name
}

} // verus!
