use vstd::prelude::*;

verus! {

/// The x86 `INT3` opcode, which raises a breakpoint trap.
pub const INT3: u8 = 0xcc;

/// The byte at the lowest address of a little-endian word.
pub open spec fn low_byte(word: u64) -> u8 {
    (word & 0xff) as u8
}

/// Byte `i` (0 being the lowest address) of a little-endian word.
pub open spec fn byte_at(word: u64, i: u64) -> u8 {
    ((word >> (8 * i)) & 0xff) as u8
}

/// `word` with its low byte replaced by `b` and the other seven kept.
pub open spec fn with_low_byte(word: u64, b: u8) -> u64 {
    (word & 0xffff_ffff_ffff_ff00) | (b as u64)
}

/// The low byte of a word.
pub fn low_byte_of(word: u64) -> (b: u8)
    ensures
        b == low_byte(word),
{
    (word & 0xff) as u8
}

/// Replaces the low byte of a word, keeping the seven bytes above it.
pub fn replace_low_byte(word: u64, b: u8) -> (r: u64)
    ensures
        r == with_low_byte(word, b),
{
    (word & 0xffff_ffff_ffff_ff00) | (b as u64)
}

/// Patching a word changes its low byte to the given one and nothing else.
pub proof fn lemma_patch_changes_only_low_byte(word: u64, b: u8)
    ensures
        low_byte(with_low_byte(word, b)) == b,
        forall|i: u64| 1 <= i < 8 ==> #[trigger] byte_at(with_low_byte(word, b), i) == byte_at(word, i),
{
    let w = word;
    let bb = b as u64;
    assert(((w & 0xffff_ffff_ffff_ff00) | bb) & 0xff == bb) by (bit_vector)
        requires bb < 256;
    assert forall|i: u64| 1 <= i < 8 implies #[trigger] byte_at(with_low_byte(word, b), i) == byte_at(word, i) by {
        assert((((w & 0xffff_ffff_ffff_ff00) | bb) >> (8 * i)) & 0xff == (w >> (8 * i)) & 0xff)
            by (bit_vector)
            requires bb < 256, 1 <= i < 8;
    }
}

/// One software breakpoint: the address it patches, the instruction byte it
/// displaced while armed, and whether it is armed.
#[derive(Clone, Copy, Debug, PartialEq, Eq, Structural)]
pub struct Breakpoint {
    pub addr: u64,
    pub saved: Option<u8>,
    pub enabled: bool,
}

impl Breakpoint {
    /// An armed breakpoint holds the byte it displaced; a disarmed one holds none.
    pub open spec fn wf(self) -> bool {
        self.enabled <==> self.saved is Some
    }

    /// A breakpoint at `addr`, not yet armed.
    pub fn new(addr: u64) -> (bp: Breakpoint)
        ensures
            bp == (Breakpoint { addr, saved: None, enabled: false }),
            bp.wf(),
    {
        Breakpoint { addr, saved: None, enabled: false }
    }

    /// Arms the breakpoint, given the word now at its address. Returns the
    /// word to write back: the same word with `INT3` as its low byte. An armed
    /// breakpoint stays as it is, and the word is returned unchanged.
    pub fn enable(&mut self, word: u64) -> (patched: u64)
        requires
            old(self).wf(),
        ensures
            final(self).wf(),
            old(self).enabled ==> *final(self) == *old(self) && patched == word,
            !old(self).enabled ==> *final(self) == (Breakpoint {
                addr: old(self).addr,
                saved: Some(low_byte(word)),
                enabled: true,
            }) && patched == with_low_byte(word, INT3),
    {
        if self.enabled {
            return word;
        }
        self.saved = Some(low_byte_of(word));
        self.enabled = true;
        replace_low_byte(word, INT3)
    }

    /// Disarms the breakpoint, given the word now at its address. Returns the
    /// word to write back: the same word with the displaced byte restored. A
    /// disarmed breakpoint stays as it is, and the word is returned unchanged.
    pub fn disable(&mut self, word: u64) -> (restored: u64)
        requires
            old(self).wf(),
        ensures
            final(self).wf(),
            !old(self).enabled ==> *final(self) == *old(self) && restored == word,
            old(self).enabled ==> *final(self) == (Breakpoint {
                addr: old(self).addr,
                saved: None,
                enabled: false,
            }) && restored == with_low_byte(word, old(self).saved.unwrap()),
    {
        if !self.enabled {
            return word;
        }
        let b = self.saved.unwrap();
        self.saved = None;
        self.enabled = false;
        replace_low_byte(word, b)
    }

    pub fn is_enabled(&self) -> (r: bool)
        ensures
            r == self.enabled,
    {
        self.enabled
    }

    pub fn get_addr(&self) -> (r: u64)
        ensures
            r == self.addr,
    {
        self.addr
    }
}

/// Enabling a breakpoint over a word and then disabling it, given the word
/// that enabling wrote, writes back exactly the word that was there before.
pub proof fn lemma_enable_disable_identity(word: u64)
    ensures
        with_low_byte(with_low_byte(word, INT3), low_byte(word)) == word,
{
    let w = word;
    assert(w & 0xff < 256) by (bit_vector);
    assert(low_byte(w) as u64 == w & 0xff);
    assert(INT3 as u64 == 0xcc);
    assert(((((w & 0xffff_ffff_ffff_ff00) | 0xcc) & 0xffff_ffff_ffff_ff00) | (w & 0xff)) == w)
        by (bit_vector);
}

/// What must be done after the next stop to put a breakpoint back in the
/// state it had before a transient breakpoint was set at its address.
#[derive(Clone, Copy, Debug, PartialEq, Eq, Structural)]
pub enum PostAction {
    Nothing,
    Delete,
    Disable,
    Enable,
}

/// The breakpoint registry: each entry is keyed by its own address and is well formed.
pub open spec fn registry_wf(reg: Map<u64, Breakpoint>) -> bool {
    forall|a: u64| #[trigger] reg.contains_key(a) ==> reg[a].addr == a && reg[a].wf()
}

/// The breakpoint that stands at `a` once it is armed over the byte `prev`.
pub open spec fn armed_at(a: u64, prev: u8) -> Breakpoint {
    Breakpoint { addr: a, saved: Some(prev), enabled: true }
}

/// Setting a transient breakpoint at `a`, where the byte now at `a` is `prev`:
/// the registry afterwards and the post-action that undoes it.
pub open spec fn transient_set(reg: Map<u64, Breakpoint>, a: u64, prev: u8) -> (Map<u64, Breakpoint>, PostAction) {
    if !reg.contains_key(a) {
        (reg.insert(a, armed_at(a, prev)), PostAction::Delete)
    } else if reg[a].enabled {
        (reg, PostAction::Nothing)
    } else {
        (reg.insert(a, armed_at(a, prev)), PostAction::Disable)
    }
}

/// Undoing a transient breakpoint at `a` by its post-action; `prev` is the
/// byte at `a` when the action needs to arm it again.
pub open spec fn transient_reverse(reg: Map<u64, Breakpoint>, a: u64, action: PostAction, prev: u8) -> Map<u64, Breakpoint> {
    match action {
        PostAction::Nothing => reg,
        PostAction::Delete => reg.remove(a),
        PostAction::Disable => reg.insert(a, Breakpoint { addr: a, saved: None, enabled: false }),
        PostAction::Enable => reg.insert(a, armed_at(a, prev)),
    }
}

pub proof fn lemma_transient_set_wf(reg: Map<u64, Breakpoint>, a: u64, prev: u8)
    requires
        registry_wf(reg),
    ensures
        registry_wf(transient_set(reg, a, prev).0),
{
}

/// Setting a transient breakpoint and reversing it by the post-action that
/// the set returned leaves the registry exactly as it was.
pub proof fn lemma_transient_round_trip(reg: Map<u64, Breakpoint>, a: u64, prev: u8, again: u8)
    requires
        registry_wf(reg),
    ensures
        ({
            let (after, action) = transient_set(reg, a, prev);
            transient_reverse(after, a, action, again) == reg
        }),
{
    let (after, action) = transient_set(reg, a, prev);
    if !reg.contains_key(a) {
        assert(after.remove(a) =~= reg);
    } else if !reg[a].enabled {
        assert(reg[a] == Breakpoint { addr: a, saved: None, enabled: false });
        assert(after.insert(a, Breakpoint { addr: a, saved: None, enabled: false }) =~= reg);
    }
}

/// Setting transient breakpoints at each address of `addrs` in order, where
/// `prevs[i]` is the byte at `addrs[i]` when it is armed: the registry
/// afterwards and the post-actions collected.
pub open spec fn transient_set_all(reg: Map<u64, Breakpoint>, addrs: Seq<u64>, prevs: Seq<u8>) -> (Map<u64, Breakpoint>, Seq<PostAction>)
    decreases addrs.len(),
{
    if addrs.len() == 0 {
        (reg, Seq::empty())
    } else {
        let (before, actions) = transient_set_all(reg, addrs.drop_last(), prevs);
        let (after, action) = transient_set(before, addrs.last(), prevs[addrs.len() - 1]);
        (after, actions.push(action))
    }
}

/// Undoing transient breakpoints by their post-actions, the last one set first.
pub open spec fn transient_reverse_all(reg: Map<u64, Breakpoint>, addrs: Seq<u64>, actions: Seq<PostAction>) -> Map<u64, Breakpoint>
    decreases addrs.len(),
{
    if addrs.len() == 0 || actions.len() == 0 {
        reg
    } else {
        transient_reverse_all(
            transient_reverse(reg, addrs.last(), actions.last(), 0),
            addrs.drop_last(),
            actions.drop_last(),
        )
    }
}

pub proof fn lemma_transient_set_all_shape(reg: Map<u64, Breakpoint>, addrs: Seq<u64>, prevs: Seq<u8>)
    requires
        registry_wf(reg),
    ensures
        registry_wf(transient_set_all(reg, addrs, prevs).0),
        transient_set_all(reg, addrs, prevs).1.len() == addrs.len(),
    decreases addrs.len(),
{
    if addrs.len() > 0 {
        lemma_transient_set_all_shape(reg, addrs.drop_last(), prevs);
        let (before, actions) = transient_set_all(reg, addrs.drop_last(), prevs);
        lemma_transient_set_wf(before, addrs.last(), prevs[addrs.len() - 1]);
    }
}

/// However many transient breakpoints a command sets, undoing them all,
/// the last one first, gives back the registry the command started from.
pub proof fn lemma_transients_restore_registry(reg: Map<u64, Breakpoint>, addrs: Seq<u64>, prevs: Seq<u8>)
    requires
        registry_wf(reg),
    ensures
        ({
            let (after, actions) = transient_set_all(reg, addrs, prevs);
            transient_reverse_all(after, addrs, actions) == reg
        }),
    decreases addrs.len(),
{
    if addrs.len() > 0 {
        let (before, actions) = transient_set_all(reg, addrs.drop_last(), prevs);
        lemma_transient_set_all_shape(reg, addrs.drop_last(), prevs);
        lemma_transient_round_trip(before, addrs.last(), prevs[addrs.len() - 1], 0);
        lemma_transients_restore_registry(reg, addrs.drop_last(), prevs);
        let (after, all) = transient_set_all(reg, addrs, prevs);
        assert(all.drop_last() =~= actions);
    }
}

} // verus!
