use vstd::prelude::*;

verus! {

/// Identifier of a database row.
pub type UDbId = i64;

/// A signed number stored in the database (engine kinds, auth kinds).
pub type IDbNo = i64;

/// A set of flags: several bits may be set.
pub type UDbFlg = i64;

/// A single flag: exactly one bit is set.
pub type UDbFlgBit = i64;

/// Whether the bit `bit` is set in `flag`, as the service tests it.
pub open spec fn flag_has(flag: UDbFlg, bit: UDbFlgBit) -> bool {
    (flag & bit) > 0
}

/// The flags of `flags` that are set in `flag`, in the order of `flags`.
pub open spec fn selected_flags(flag: UDbFlg, flags: Seq<UDbFlgBit>) -> Seq<UDbFlgBit>
    decreases flags.len(),
{
    if flags.len() == 0 {
        Seq::empty()
    } else {
        let rest = selected_flags(flag, flags.drop_last());
        if flag_has(flag, flags.last()) {
            rest.push(flags.last())
        } else {
            rest
        }
    }
}

/// A flag is selected exactly when it is one of the candidates and its bit is set.
pub proof fn lemma_selected_flags_contains(flag: UDbFlg, flags: Seq<UDbFlgBit>, bit: UDbFlgBit)
    ensures
        selected_flags(flag, flags).contains(bit) <==> (flags.contains(bit) && flag_has(flag, bit)),
    decreases flags.len(),
{
    if flags.len() > 0 {
        lemma_selected_flags_contains(flag, flags.drop_last(), bit);
        assert(flags == flags.drop_last().push(flags.last()));
        if flags.contains(bit) && bit != flags.last() {
            let k = choose|k: int| 0 <= k < flags.len() && flags[k] == bit;
            assert(flags.drop_last()[k] == bit);
        }
        if flags.drop_last().contains(bit) {
            let k = choose|k: int| 0 <= k < flags.drop_last().len() && flags.drop_last()[k] == bit;
            assert(flags[k] == bit);
        }
        let rest = selected_flags(flag, flags.drop_last());
        if flag_has(flag, flags.last()) {
            if rest.push(flags.last()).contains(bit) && bit != flags.last() {
                let k = choose|k: int| 0 <= k < rest.push(flags.last()).len() && rest.push(flags.last())[k] == bit;
                assert(rest[k] == bit);
            }
            if bit == flags.last() {
                assert(rest.push(flags.last())[rest.len() as int] == bit);
            }
            if rest.contains(bit) {
                let k = choose|k: int| 0 <= k < rest.len() && rest[k] == bit;
                assert(rest.push(flags.last())[k] == bit);
            }
        }
    }
}

/// Returns the flags of `flags` whose bit is set in `flag`, keeping their order.
pub fn select_flags(flag: UDbFlg, flags: &[UDbFlgBit]) -> (r: Vec<UDbFlgBit>)
    ensures
        r@ == selected_flags(flag, flags@),
{
    let mut r: Vec<UDbFlgBit> = Vec::new();
    let mut i: usize = 0;
    while i < flags.len()
        invariant
            i <= flags@.len(),
            r@ == selected_flags(flag, flags@.take(i as int)),
        decreases flags@.len() - i,
    {
        let c = flags[i];
        assert(flags@.take(i as int + 1).drop_last() == flags@.take(i as int));
        if (flag & c) > 0 {
            r.push(c);
        }
        i = i + 1;
    }
    assert(flags@.take(flags@.len() as int) == flags@);
    r
}

/// Flags that agree on every candidate bit select the same candidates.
pub proof fn lemma_selected_flags_agree(a: UDbFlg, c: UDbFlg, flags: Seq<UDbFlgBit>)
    requires
        forall|i: int| 0 <= i < flags.len() ==> flag_has(a, #[trigger] flags[i]) == flag_has(c, flags[i]),
    ensures
        selected_flags(a, flags) == selected_flags(c, flags),
    decreases flags.len(),
{
    if flags.len() > 0 {
        let pre = flags.drop_last();
        assert forall|i: int| 0 <= i < pre.len() implies flag_has(a, #[trigger] pre[i]) == flag_has(c, pre[i]) by {
            assert(pre[i] == flags[i]);
        }
        lemma_selected_flags_agree(a, c, pre);
        assert(flags.last() == flags[flags.len() - 1]);
    }
}

} // verus!
