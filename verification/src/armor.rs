//! Armor attributes: which modifiers count and how they are grouped.

use vstd::prelude::*;

use crate::number::Double;

verus! {

/// How a modifier acts on an attribute.
#[derive(Clone, Copy, Debug, PartialEq, Eq, Structural)]
pub enum ModifierOperation {
    AddValue,
    AddMultipliedBase,
    AddMultipliedTotal,
}

/// A modifier of an attribute.
#[derive(Debug, PartialEq, Eq)]
pub struct AttributeModifier {
    pub id: String,
    pub amount: Double,
    pub operation: ModifierOperation,
}

/// Two modifiers are written to the same entry.
pub open spec fn same_id(modifiers: Seq<AttributeModifier>, i: int, j: int) -> bool {
    modifiers[i].id@ == modifiers[j].id@
}

/// `kept` names, for the first `n` modifiers, the last one written to each
/// entry, in the order in which the entries were first written.
pub open spec fn last_writes(modifiers: Seq<AttributeModifier>, n: int, kept: Seq<usize>) -> bool {
    &&& forall|k: int| 0 <= k < kept.len() ==> 0 <= (#[trigger] kept[k]) < n
    &&& forall|k: int, i: int|
        0 <= k < kept.len() && kept[k] < i < n ==> !same_id(
            modifiers,
            #[trigger] kept[k] as int,
            #[trigger] ident(i),
        )
    &&& forall|i: int| 0 <= i < n ==> #[trigger] has_entry(modifiers, kept, i)
    &&& forall|a: int, b: int|
        0 <= a < b < kept.len() ==> written_before(
            modifiers,
            n,
            #[trigger] kept[a] as int,
            #[trigger] kept[b] as int,
        )
}

/// Some kept modifier has the id of modifier `i`.
pub open spec fn has_entry(modifiers: Seq<AttributeModifier>, kept: Seq<usize>, i: int) -> bool {
    exists|k: int| 0 <= k < kept.len() && same_id(modifiers, #[trigger] kept[k] as int, i)
}

/// The number itself.
pub open spec fn ident(i: int) -> int {
    i
}

/// The entry of modifier `a` was first written before that of modifier `b`.
pub open spec fn written_before(
    modifiers: Seq<AttributeModifier>,
    n: int,
    a: int,
    b: int,
) -> bool {
    exists|i: int|
        0 <= i < n && same_id(modifiers, i, a) && forall|j: int|
            0 <= j <= i ==> !same_id(modifiers, #[trigger] ident(j), b)
}

/// The place of the entry to which modifier `n` is written, if it exists.
pub open spec fn entry_at(
    modifiers: Seq<AttributeModifier>,
    kept: Seq<usize>,
    n: int,
    k: int,
) -> bool {
    &&& 0 <= k < kept.len()
    &&& same_id(modifiers, kept[k] as int, n)
    &&& forall|j: int| 0 <= j < k ==> !same_id(modifiers, #[trigger] kept[j] as int, n)
}

/// The modifiers that count among the first `n`: each one is written over the
/// entry with its id, or gets a new entry at the end.
pub open spec fn kept_modifiers(modifiers: Seq<AttributeModifier>, n: int) -> Seq<usize>
    decreases n,
{
    if n <= 0 {
        Seq::empty()
    } else {
        let m = n - 1;
        let before = kept_modifiers(modifiers, m);
        if exists|k: int| #[trigger] entry_at(modifiers, before, m, k) {
            before.update(choose|k: int| #[trigger] entry_at(modifiers, before, m, k), m as usize)
        } else {
            before.push(m as usize)
        }
    }
}

/// The modifiers that count: of those with one id the last one written.
pub fn effective_modifiers(modifiers: &Vec<AttributeModifier>) -> (kept: Vec<usize>)
    ensures
        kept@ == kept_modifiers(modifiers@, modifiers@.len() as int),
        last_writes(modifiers@, modifiers@.len() as int, kept@),
{
    let mut kept: Vec<usize> = Vec::new();
    let mut n: usize = 0;
    while n < modifiers.len()
        invariant
            n <= modifiers@.len(),
            kept@ == kept_modifiers(modifiers@, n as int),
            last_writes(modifiers@, n as int, kept@),
        decreases modifiers@.len() - n,
    {
        let ghost before = kept@;
        let mut k: usize = 0;
        let mut found = false;
        while k < kept.len() && !found
            invariant
                n < modifiers@.len(),
                kept@ == before,
                last_writes(modifiers@, n as int, kept@),
                k <= kept@.len(),
                found ==> k < kept@.len() && same_id(modifiers@, kept@[k as int] as int, n as int),
                forall|j: int|
                    0 <= j < k ==> !same_id(modifiers@, #[trigger] kept@[j] as int, n as int),
            decreases kept@.len() - k, (if found { 0int } else { 1int }),
        {
            let index: usize = kept[k];
            if modifiers[index].id == modifiers[n].id {
                found = true;
            } else {
                k = k + 1;
            }
        }
        if found {
            kept.set(k, n);
            proof {
                assert(entry_at(modifiers@, before, n as int, k as int));
                assert forall|j: int| entry_at(modifiers@, before, n as int, j) implies j == k by {
                    if j > k {
                        assert(!same_id(modifiers@, before[k as int] as int, n as int));
                    } else if j < k {
                        assert(!same_id(modifiers@, before[j] as int, n as int));
                    }
                }
                lemma_replaced(modifiers@, n as int, before, k as int, kept@);
            }
        } else {
            kept.push(n);
            proof {
                assert forall|j: int| !entry_at(modifiers@, before, n as int, j) by {
                    if entry_at(modifiers@, before, n as int, j) {
                        assert(!same_id(modifiers@, before[j] as int, n as int));
                    }
                }
                lemma_pushed(modifiers@, n as int, before, kept@);
            }
        }
        n = n + 1;
    }
    kept
}

proof fn lemma_replaced(
    modifiers: Seq<AttributeModifier>,
    n: int,
    before: Seq<usize>,
    at: int,
    after: Seq<usize>,
)
    requires
        0 <= n < modifiers.len(),
        n <= usize::MAX,
        last_writes(modifiers, n, before),
        0 <= at < before.len(),
        same_id(modifiers, before[at] as int, n),
        forall|j: int| 0 <= j < at ==> !same_id(modifiers, #[trigger] before[j] as int, n),
        after == before.update(at, n as usize),
    ensures
        last_writes(modifiers, n + 1, after),
{
    assert forall|k: int, i: int| 0 <= k < after.len() && after[k] < i < n + 1 implies !same_id(
        modifiers,
        #[trigger] after[k] as int,
        #[trigger] ident(i),
    ) by {
        if k != at {
            assert(after[k] == before[k]);
            if i < n {
                assert(!same_id(modifiers, before[k] as int, ident(i)));
            } else {
                // Two kept modifiers never share an id.
                if same_id(modifiers, before[k] as int, n) {
                    if k < at {
                        assert(false);
                    } else {
                        assert(written_before(modifiers, n, before[at] as int, before[k] as int));
                        let w = choose|w: int|
                            0 <= w < n && same_id(modifiers, w, before[at] as int) && forall|j: int|
                                0 <= j <= w ==> !same_id(
                                    modifiers,
                                    #[trigger] ident(j),
                                    before[k] as int,
                                );
                        assert(!same_id(modifiers, ident(w), before[k] as int));
                    }
                }
            }
        }
    }
    assert forall|i: int| 0 <= i < n + 1 implies #[trigger] has_entry(modifiers, after, i) by {
        if i == n {
            assert(same_id(modifiers, after[at] as int, n));
        } else {
            assert(has_entry(modifiers, before, i));
            let k = choose|k: int|
                0 <= k < before.len() && same_id(modifiers, #[trigger] before[k] as int, i);
            assert(same_id(modifiers, after[k] as int, i));
        }
    }
    assert forall|a: int, b: int| 0 <= a < b < after.len() implies written_before(
        modifiers,
        n + 1,
        #[trigger] after[a] as int,
        #[trigger] after[b] as int,
    ) by {
        assert(written_before(modifiers, n, before[a] as int, before[b] as int));
        let w = choose|w: int|
            0 <= w < n && same_id(modifiers, w, before[a] as int) && forall|j: int|
                0 <= j <= w ==> !same_id(modifiers, #[trigger] ident(j), before[b] as int);
        assert(same_id(modifiers, w, after[a] as int));
        assert forall|j: int| 0 <= j <= w implies !same_id(
            modifiers,
            #[trigger] ident(j),
            after[b] as int,
        ) by {
            assert(!same_id(modifiers, ident(j), before[b] as int));
        }
    }
}

proof fn lemma_pushed(
    modifiers: Seq<AttributeModifier>,
    n: int,
    before: Seq<usize>,
    after: Seq<usize>,
)
    requires
        0 <= n < modifiers.len(),
        n <= usize::MAX,
        last_writes(modifiers, n, before),
        forall|j: int|
            0 <= j < before.len() ==> !same_id(modifiers, #[trigger] before[j] as int, n),
        after == before.push(n as usize),
    ensures
        last_writes(modifiers, n + 1, after),
{
    assert forall|k: int, i: int| 0 <= k < after.len() && after[k] < i < n + 1 implies !same_id(
        modifiers,
        #[trigger] after[k] as int,
        #[trigger] ident(i),
    ) by {
        if k < before.len() {
            assert(after[k] == before[k]);
            if i < n {
                assert(!same_id(modifiers, before[k] as int, ident(i)));
            }
        }
    }
    assert forall|i: int| 0 <= i < n implies !same_id(modifiers, i, n) by {
        assert(has_entry(modifiers, before, i));
        let k = choose|k: int|
            0 <= k < before.len() && same_id(modifiers, #[trigger] before[k] as int, i);
        assert(!same_id(modifiers, before[k] as int, n));
    }
    assert forall|i: int| 0 <= i < n + 1 implies #[trigger] has_entry(modifiers, after, i) by {
        if i == n {
            assert(after[before.len() as int] == n);
            assert(same_id(modifiers, after[before.len() as int] as int, n));
        } else {
            assert(has_entry(modifiers, before, i));
            let k = choose|k: int|
                0 <= k < before.len() && same_id(modifiers, #[trigger] before[k] as int, i);
            assert(after[k] == before[k]);
            assert(same_id(modifiers, after[k] as int, i));
        }
    }
    assert forall|a: int, b: int| 0 <= a < b < after.len() implies written_before(
        modifiers,
        n + 1,
        #[trigger] after[a] as int,
        #[trigger] after[b] as int,
    ) by {
        assert(after[a] == before[a]);
        if b < before.len() {
            assert(after[b] == before[b]);
            assert(written_before(modifiers, n, before[a] as int, before[b] as int));
            let w = choose|w: int|
                0 <= w < n && same_id(modifiers, w, before[a] as int) && forall|j: int|
                    0 <= j <= w ==> !same_id(modifiers, #[trigger] ident(j), before[b] as int);
            assert(same_id(modifiers, w, after[a] as int));
        } else {
            let w = before[a] as int;
            assert(same_id(modifiers, w, after[a] as int));
            assert forall|j: int| 0 <= j <= w implies !same_id(
                modifiers,
                #[trigger] ident(j),
                after[b] as int,
            ) by {
                assert(!same_id(modifiers, j, n));
            }
        }
    }
}

/// The amounts of the kept modifiers of one operation, in order.
pub open spec fn amounts_of(
    modifiers: Seq<AttributeModifier>,
    kept: Seq<usize>,
    operation: ModifierOperation,
) -> Seq<Double>
    decreases kept.len(),
{
    if kept.len() == 0 {
        Seq::empty()
    } else {
        let rest = amounts_of(modifiers, kept.drop_last(), operation);
        let last = modifiers[kept.last() as int];
        if last.operation == operation {
            rest.push(last.amount)
        } else {
            rest
        }
    }
}

/// The terms of an attribute's value: the amounts to add, the share of the sum
/// to add to it, and the factors to multiply by, each in order.
#[derive(Debug, PartialEq, Eq)]
pub struct AttributeTerms {
    pub added: Vec<Double>,
    pub of_base: Vec<Double>,
    pub of_total: Vec<Double>,
}

/// The attribute has a value: its base and every amount that counts is finite.
pub open spec fn finite_terms(
    base: Double,
    modifiers: Seq<AttributeModifier>,
    kept: Seq<usize>,
) -> bool {
    base.finite() && forall|k: int|
        0 <= k < kept.len() ==> modifiers[#[trigger] kept[k] as int].amount.finite()
}

/// Groups the given modifiers by operation; the order among the groups is fixed
/// and not that of the packet.
pub fn group_modifiers(
    base: Double,
    modifiers: &Vec<AttributeModifier>,
    kept: &Vec<usize>,
) -> (terms: Option<AttributeTerms>)
    requires
        forall|k: int| 0 <= k < kept@.len() ==> (#[trigger] kept@[k]) < modifiers@.len(),
    ensures
        terms is Some <==> finite_terms(base, modifiers@, kept@),
        terms matches Some(t) ==> {
            &&& t.added@ == amounts_of(modifiers@, kept@, ModifierOperation::AddValue)
            &&& t.of_base@ == amounts_of(modifiers@, kept@, ModifierOperation::AddMultipliedBase)
            &&& t.of_total@ == amounts_of(modifiers@, kept@, ModifierOperation::AddMultipliedTotal)
        },
{
    if !base.is_finite() {
        return None;
    }
    let mut terms = AttributeTerms { added: Vec::new(), of_base: Vec::new(), of_total: Vec::new() };
    let mut k: usize = 0;
    while k < kept.len()
        invariant
            base.finite(),
            k <= kept@.len(),
            forall|j: int| 0 <= j < kept@.len() ==> (#[trigger] kept@[j]) < modifiers@.len(),
            forall|j: int|
                0 <= j < k ==> modifiers@[#[trigger] kept@[j] as int].amount.finite(),
            terms.added@ == amounts_of(
                modifiers@,
                kept@.take(k as int),
                ModifierOperation::AddValue,
            ),
            terms.of_base@ == amounts_of(
                modifiers@,
                kept@.take(k as int),
                ModifierOperation::AddMultipliedBase,
            ),
            terms.of_total@ == amounts_of(
                modifiers@,
                kept@.take(k as int),
                ModifierOperation::AddMultipliedTotal,
            ),
        decreases kept@.len() - k,
    {
        let index: usize = kept[k];
        let amount = modifiers[index].amount;
        if !amount.is_finite() {
            assert(!modifiers@[kept@[k as int] as int].amount.finite());
            return None;
        }
        assert(kept@.take(k + 1).drop_last() =~= kept@.take(k as int));
        match modifiers[index].operation {
            ModifierOperation::AddValue => {
                terms.added.push(amount);
            },
            ModifierOperation::AddMultipliedBase => {
                terms.of_base.push(amount);
            },
            ModifierOperation::AddMultipliedTotal => {
                terms.of_total.push(amount);
            },
        }
        k = k + 1;
    }
    assert(kept@.take(kept@.len() as int) =~= kept@);
    Some(terms)
}

/// The terms of an armor attribute: the modifiers that count, grouped.
pub fn armor_terms(base: Double, modifiers: &Vec<AttributeModifier>) -> (terms: Option<
    AttributeTerms,
>)
    ensures
        ({
            let kept = kept_modifiers(modifiers@, modifiers@.len() as int);
            &&& terms is Some <==> finite_terms(base, modifiers@, kept)
            &&& (terms matches Some(t) ==> {
                &&& t.added@ == amounts_of(modifiers@, kept, ModifierOperation::AddValue)
                &&& t.of_base@ == amounts_of(
                    modifiers@,
                    kept,
                    ModifierOperation::AddMultipliedBase,
                )
                &&& t.of_total@ == amounts_of(
                    modifiers@,
                    kept,
                    ModifierOperation::AddMultipliedTotal,
                )
            })
        }),
{
    let kept = effective_modifiers(modifiers);
    group_modifiers(base, modifiers, &kept)
}

proof fn lemma_amounts(
    modifiers: Seq<AttributeModifier>,
    kept: Seq<usize>,
    operation: ModifierOperation,
)
    ensures
        amounts_of(modifiers, kept, operation) == kept.filter(
            |k: usize| modifiers[k as int].operation == operation,
        ).map_values(|k: usize| modifiers[k as int].amount),
    decreases kept.len(),
{
    reveal(Seq::filter);
    let of = |k: usize| modifiers[k as int].operation == operation;
    let amount = |k: usize| modifiers[k as int].amount;
    if kept.len() > 0 {
        lemma_amounts(modifiers, kept.drop_last(), operation);
        let rest = kept.drop_last().filter(of);
        if of(kept.last()) {
            assert(kept.filter(of) == rest.push(kept.last()));
            assert(rest.push(kept.last()).map_values(amount) =~= rest.map_values(amount).push(
                amount(kept.last()),
            ));
        }
    } else {
        assert(kept.filter(of).map_values(amount) =~= Seq::empty());
    }
}

/// Every modifier that counts goes to the group of its own operation, and each
/// group keeps the order of the entries.
pub proof fn law_modifiers_go_to_their_own_group(
    modifiers: Seq<AttributeModifier>,
    kept: Seq<usize>,
    operation: ModifierOperation,
)
    ensures
        amounts_of(modifiers, kept, operation) == kept.filter(
            |k: usize| modifiers[k as int].operation == operation,
        ).map_values(|k: usize| modifiers[k as int].amount),
{
    lemma_amounts(modifiers, kept, operation);
}

/// A modifier that no later one with its id follows counts; one that is written
/// over does not.
pub proof fn law_the_last_modifier_of_an_id_counts(
    modifiers: Seq<AttributeModifier>,
    kept: Seq<usize>,
    i: int,
)
    requires
        last_writes(modifiers, modifiers.len() as int, kept),
        0 <= i < modifiers.len(),
        modifiers.len() <= usize::MAX,
    ensures
        kept.contains(i as usize) <==> forall|j: int|
            i < j < modifiers.len() ==> (#[trigger] modifiers[j]).id@ != modifiers[i].id@,
{
    let n = modifiers.len() as int;
    assert(has_entry(modifiers, kept, i));
    let k = choose|k: int| 0 <= k < kept.len() && same_id(modifiers, #[trigger] kept[k] as int, i);
    let last = forall|j: int|
        i < j < modifiers.len() ==> (#[trigger] modifiers[j]).id@ != modifiers[i].id@;
    if last {
        assert(kept[k] <= i) by {
            if kept[k] > i {
                assert(modifiers[kept[k] as int].id@ != modifiers[i].id@);
            }
        }
        if kept[k] < i {
            assert(!same_id(modifiers, kept[k] as int, ident(i)));
        }
        assert(kept[k] == i as usize);
    }
    if kept.contains(i as usize) {
        let m = choose|m: int| 0 <= m < kept.len() && kept[m] == i as usize;
        assert forall|j: int| i < j < modifiers.len() implies (#[trigger] modifiers[j]).id@
            != modifiers[i].id@ by {
            assert(!same_id(modifiers, kept[m] as int, ident(j)));
        }
    }
}

/// Entries stay where they are: one that is written again keeps its place, and a
/// new one comes last.
pub proof fn law_entries_keep_their_places(modifiers: Seq<AttributeModifier>, n: int, k: int)
    requires
        0 <= n < modifiers.len(),
        0 <= k < kept_modifiers(modifiers, n).len(),
        modifiers.len() <= usize::MAX,
    ensures
        ({
            let before = kept_modifiers(modifiers, n);
            let after = kept_modifiers(modifiers, n + 1);
            &&& before.len() <= after.len() <= before.len() + 1
            &&& modifiers[after[k] as int].id@ == modifiers[before[k] as int].id@
            &&& after.len() > before.len() ==> after.last() == n as usize
        }),
{
    let before = kept_modifiers(modifiers, n);
    if exists|j: int| #[trigger] entry_at(modifiers, before, n, j) {
        let at = choose|j: int| #[trigger] entry_at(modifiers, before, n, j);
        assert(entry_at(modifiers, before, n, at));
    }
}

/// An attribute has a value exactly if its base is a number and no modifier that
/// counts brings something that is none.
pub proof fn law_attributes_are_made_of_numbers(
    base: Double,
    modifiers: Seq<AttributeModifier>,
    kept: Seq<usize>,
)
    ensures
        finite_terms(base, modifiers, kept) ==> base.magnitude() < 0x7FF0_0000_0000_0000,
        finite_terms(base, modifiers, kept) ==> forall|k: int|
            0 <= k < kept.len() ==> modifiers[#[trigger] kept[k] as int].amount.magnitude()
                < 0x7FF0_0000_0000_0000,
        base.magnitude() < 0x7FF0_0000_0000_0000 && (forall|k: int|
            0 <= k < kept.len() ==> modifiers[#[trigger] kept[k] as int].amount.magnitude()
                < 0x7FF0_0000_0000_0000) ==> finite_terms(base, modifiers, kept),
{
}

} // verus!
