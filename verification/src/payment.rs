use vstd::prelude::*;

verus! {

/// A way in which a prover can be paid.
#[derive(Clone, Copy, Debug, PartialEq, Eq, Structural, Hash)]
pub enum PaymentType {
    Zap,
    Starknet,
}

/// The minimum amount asked for each payment type: a map from payment type
/// to amount, with one slot per payment type.
#[derive(Clone, Copy, Debug, PartialEq, Eq, Structural)]
pub struct PaymentMinimums {
    zap: Option<u64>,
    starknet: Option<u64>,
}

impl View for PaymentMinimums {
    type V = Map<PaymentType, u64>;

    open spec fn view(&self) -> Map<PaymentType, u64> {
        Map::new(
            |p: PaymentType| self.slot(p) is Some,
            |p: PaymentType| self.slot(p)->Some_0,
        )
    }
}

impl PaymentMinimums {
    /// The slot that holds the amount of payment type `p`.
    pub closed spec fn slot(&self, p: PaymentType) -> Option<u64> {
        match p {
            PaymentType::Zap => self.zap,
            PaymentType::Starknet => self.starknet,
        }
    }

    /// An empty map.
    pub fn new() -> (m: Self)
        ensures
            m@ == Map::<PaymentType, u64>::empty(),
    {
        let m = PaymentMinimums { zap: None, starknet: None };
        assert(m@ =~= Map::<PaymentType, u64>::empty());
        m
    }

    /// Sets the minimum of payment type `p` to `amount`, and returns the
    /// minimum it had before, if it had one.
    pub fn insert(&mut self, p: PaymentType, amount: u64) -> (previous: Option<u64>)
        ensures
            final(self)@ == old(self)@.insert(p, amount),
            previous == (if old(self)@.contains_key(p) { Some(old(self)@[p]) } else { None::<u64> }),
    {
        let previous = match p {
            PaymentType::Zap => {
                let prev = self.zap;
                self.zap = Some(amount);
                prev
            },
            PaymentType::Starknet => {
                let prev = self.starknet;
                self.starknet = Some(amount);
                prev
            },
        };
        assert(self@ =~= old(self)@.insert(p, amount));
        previous
    }

    /// The minimum of payment type `p`, if it has one.
    pub fn get(&self, p: PaymentType) -> (amount: Option<u64>)
        ensures
            amount == (if self@.contains_key(p) { Some(self@[p]) } else { None::<u64> }),
    {
        match p {
            PaymentType::Zap => self.zap,
            PaymentType::Starknet => self.starknet,
        }
    }

    /// The number of payment types that have a minimum.
    pub fn len(&self) -> (n: usize)
        ensures
            n == self@.len(),
    {
        proof { self.lemma_dom(); }
        let mut n: usize = 0;
        if self.zap.is_some() {
            n = n + 1;
        }
        if self.starknet.is_some() {
            n = n + 1;
        }
        n
    }

    /// The domain of the map, written out by its two slots.
    proof fn lemma_dom(&self)
        ensures
            self@.dom() == (if self.zap is Some { set![PaymentType::Zap] } else { Set::empty() }).union(
                if self.starknet is Some { set![PaymentType::Starknet] } else { Set::empty() }),
            self@.dom().finite(),
            self@.len() == (if self.zap is Some { 1nat } else { 0nat }) + (if self.starknet is Some { 1nat } else { 0nat }),
    {
        let z: Set<PaymentType> = if self.zap is Some { set![PaymentType::Zap] } else { Set::empty() };
        let s: Set<PaymentType> = if self.starknet is Some { set![PaymentType::Starknet] } else { Set::empty() };
        assert(self@.dom() =~= z.union(s));
        assert(z.disjoint(s));
        vstd::set_lib::lemma_set_disjoint_lens(z, s);
    }
}

/// What a read gives back of a write: after `insert(p, amount)`, `get(p)`
/// gives `amount`, and `get` of any other payment type gives what it gave
/// before.
pub proof fn law_read_after_write(m: PaymentMinimums, p: PaymentType, q: PaymentType, amount: u64)
    ensures
        m@.insert(p, amount).contains_key(p),
        m@.insert(p, amount)[p] == amount,
        q != p ==> (m@.insert(p, amount).contains_key(q) == m@.contains_key(q)),
        q != p ==> m@.insert(p, amount)[q] == m@[q],
{
}

/// Writing the same payment type twice keeps only the second amount.
pub proof fn law_last_write_wins(m: PaymentMinimums, p: PaymentType, a: u64, b: u64)
    ensures
        m@.insert(p, a).insert(p, b) == m@.insert(p, b),
{
    assert(m@.insert(p, a).insert(p, b) =~= m@.insert(p, b));
}

} // verus!
