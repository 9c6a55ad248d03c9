//! The order in which the catalogue is shown.

use vstd::prelude::*;
use crate::icons::{GRID, LIST};

verus! {

/// How the videos are laid out.
#[derive(Debug, Clone, Copy, PartialEq, Eq, Structural)]
pub enum ViewType {
    Grid,
    List,
}

impl Default for ViewType {
    fn default() -> (view: ViewType)
        ensures
            view == ViewType::Grid,
    {
        ViewType::Grid
    }
}

impl ViewType {
    /// The other layout.
    pub open spec fn toggled(self) -> ViewType {
        match self {
            ViewType::Grid => ViewType::List,
            ViewType::List => ViewType::Grid,
        }
    }

    /// The icon of the layout.
    pub fn icon(&self) -> (icon: char)
        ensures
            icon == match self {
                ViewType::Grid => GRID,
                ViewType::List => LIST,
            },
    {
        match self {
            ViewType::Grid => GRID,
            ViewType::List => LIST,
        }
    }

    /// Switches to the other layout.
    pub fn toggle(&mut self)
        ensures
            *final(self) == old(self).toggled(),
    {
        *self = match self {
            ViewType::Grid => ViewType::List,
            ViewType::List => ViewType::Grid,
        }
    }
}

/// A property of a video by which the catalogue can be ordered.
#[derive(Debug, Clone, Copy, PartialEq, Eq, Structural)]
pub enum SortKind {
    Name,
    Duration,
    Added,
    Rating,
    Recent,
    Release,
    Progress,
    Comments,
}

impl SortKind {
    /// What the property is called on the screen.
    pub open spec fn spec_label(self) -> Seq<char> {
        match self {
            SortKind::Name => "Name"@,
            SortKind::Duration => "Duration"@,
            SortKind::Added => "Added"@,
            SortKind::Rating => "Rating"@,
            SortKind::Recent => "Recent"@,
            SortKind::Release => "Release"@,
            SortKind::Progress => "Progress"@,
            SortKind::Comments => "Comments"@,
        }
    }

    /// Every property.
    pub fn all() -> (all: [SortKind; 8])
        ensures
            all@ == seq![
                SortKind::Name,
                SortKind::Duration,
                SortKind::Added,
                SortKind::Rating,
                SortKind::Recent,
                SortKind::Release,
                SortKind::Progress,
                SortKind::Comments,
            ],
    {
        let all = [
            SortKind::Name,
            SortKind::Duration,
            SortKind::Added,
            SortKind::Rating,
            SortKind::Recent,
            SortKind::Release,
            SortKind::Progress,
            SortKind::Comments,
        ];
        assert(all@ =~= seq![
            SortKind::Name,
            SortKind::Duration,
            SortKind::Added,
            SortKind::Rating,
            SortKind::Recent,
            SortKind::Release,
            SortKind::Progress,
            SortKind::Comments,
        ]);
        all
    }

    /// What the property is called on the screen.
    pub fn label(&self) -> (text: String)
        ensures
            text@ == self.spec_label(),
    {
        match self {
            SortKind::Name => String::from_str("Name"),
            SortKind::Duration => String::from_str("Duration"),
            SortKind::Added => String::from_str("Added"),
            SortKind::Rating => String::from_str("Rating"),
            SortKind::Recent => String::from_str("Recent"),
            SortKind::Release => String::from_str("Release"),
            SortKind::Progress => String::from_str("Progress"),
            SortKind::Comments => String::from_str("Comments"),
        }
    }
}

/// The properties by which the catalogue is ordered, the most important
/// first, and whether the order is turned round.
#[derive(Debug, Clone, PartialEq, Eq)]
pub struct Sort {
    pub kinds: Vec<SortKind>,
    pub reverse: bool,
}

impl Default for Sort {
    fn default() -> (sort: Sort)
        ensures
            sort.kinds@ == Seq::<SortKind>::empty(),
            !sort.reverse,
    {
        Sort { kinds: Vec::new(), reverse: false }
    }
}

impl Sort {
    /// A copy of the order.
    pub fn duplicate(&self) -> (copy: Sort)
        ensures
            copy.kinds@ == self.kinds@,
            copy.reverse == self.reverse,
    {
        let mut kinds: Vec<SortKind> = Vec::new();
        let mut i: usize = 0;
        while i < self.kinds.len()
            invariant
                i <= self.kinds@.len(),
                kinds@ == self.kinds@.subrange(0, i as int),
            decreases self.kinds@.len() - i,
        {
            kinds.push(self.kinds[i]);
            assert(kinds@ =~= self.kinds@.subrange(0, i + 1));
            i = i + 1;
        }
        assert(kinds@ =~= self.kinds@);
        Sort { kinds, reverse: self.reverse }
    }

    /// Where `kind` stands among the properties, if it does.
    pub fn position(&self, kind: SortKind) -> (order: Option<usize>)
        ensures
            match order {
                Some(i) => i < self.kinds@.len() && self.kinds@[i as int] == kind && forall|k: int|
                    0 <= k < i ==> self.kinds@[k] != kind,
                None => !self.kinds@.contains(kind),
            },
    {
        let mut i: usize = 0;
        while i < self.kinds.len()
            invariant
                i <= self.kinds@.len(),
                forall|k: int| 0 <= k < i ==> self.kinds@[k] != kind,
            decreases self.kinds@.len() - i,
        {
            if self.kinds[i] == kind {
                return Some(i);
            }
            i = i + 1;
        }
        None
    }

    /// Makes `kind` the least important property of the order.
    pub fn add(&mut self, kind: SortKind)
        ensures
            final(self).kinds@ == old(self).kinds@.push(kind),
            final(self).reverse == old(self).reverse,
    {
        self.kinds.push(kind);
    }

    /// Takes `kind` out of the order, wherever it stands in it.
    pub fn remove(&mut self, kind: SortKind)
        ensures
            final(self).kinds@ == old(self).kinds@.filter(|k: SortKind| k != kind),
            final(self).reverse == old(self).reverse,
    {
        let mut kept: Vec<SortKind> = Vec::new();
        let ghost keep = |k: SortKind| k != kind;
        let mut i: usize = 0;
        assert(self.kinds@.subrange(0, 0) =~= Seq::<SortKind>::empty());
        proof {
            reveal(Seq::filter);
        }
        while i < self.kinds.len()
            invariant
                i <= self.kinds@.len(),
                keep == |k: SortKind| k != kind,
                kept@ == self.kinds@.subrange(0, i as int).filter(keep),
            decreases self.kinds@.len() - i,
        {
            let ghost before = self.kinds@.subrange(0, i as int);
            let ghost after = self.kinds@.subrange(0, i + 1);
            proof {
                assert(after.drop_last() =~= before);
                assert(after.last() == self.kinds@[i as int]);
                reveal(Seq::filter);
            }
            if self.kinds[i] != kind {
                kept.push(self.kinds[i]);
            }
            i = i + 1;
        }
        assert(self.kinds@.subrange(0, i as int) =~= self.kinds@);
        self.kinds = kept;
    }
}

/// How one thing stands to another in an order.
#[derive(Debug, Clone, Copy, PartialEq, Eq, Structural)]
pub enum Order {
    Less,
    Equal,
    Greater,
}

impl Order {
    /// The same relation seen from the other side.
    pub open spec fn flipped(self) -> Order {
        match self {
            Order::Less => Order::Greater,
            Order::Equal => Order::Equal,
            Order::Greater => Order::Less,
        }
    }
}

/// How the number `a` stands to the number `b`.
pub open spec fn number_order(a: int, b: int) -> Order {
    if a < b {
        Order::Less
    } else if a > b {
        Order::Greater
    } else {
        Order::Equal
    }
}

/// How the bytes `a` stand to the bytes `b` in the order of the dictionary:
/// the first byte in which they differ decides, and where one is the
/// beginning of the other, the shorter one is less.
pub open spec fn bytes_order(a: Seq<u8>, b: Seq<u8>) -> Order
    decreases a.len(),
{
    if a.len() == 0 {
        if b.len() == 0 {
            Order::Equal
        } else {
            Order::Less
        }
    } else if b.len() == 0 {
        Order::Greater
    } else if a[0] != b[0] {
        number_order(a[0] as int, b[0] as int)
    } else {
        bytes_order(a.subrange(1, a.len() as int), b.subrange(1, b.len() as int))
    }
}

/// Seen from the other side, the order of the dictionary is the other way
/// round.
pub proof fn lemma_bytes_order_flips(a: Seq<u8>, b: Seq<u8>)
    ensures
        bytes_order(b, a) == bytes_order(a, b).flipped(),
    decreases a.len(),
{
    if a.len() > 0 && b.len() > 0 && a[0] == b[0] {
        lemma_bytes_order_flips(a.subrange(1, a.len() as int), b.subrange(1, b.len() as int));
    }
}

/// The order of the dictionary carries over: with `a` no greater than `b`
/// and `b` no greater than `c`, `a` is no greater than `c`, and less where
/// one of the two steps is.
pub proof fn lemma_bytes_order_transitive(a: Seq<u8>, b: Seq<u8>, c: Seq<u8>)
    requires
        bytes_order(a, b) != Order::Greater,
        bytes_order(b, c) != Order::Greater,
    ensures
        bytes_order(a, c) != Order::Greater,
        bytes_order(a, b) == Order::Less || bytes_order(b, c) == Order::Less ==> bytes_order(a, c)
            == Order::Less,
    decreases a.len(),
{
    if a.len() > 0 && b.len() > 0 && c.len() > 0 && a[0] == b[0] && b[0] == c[0] {
        lemma_bytes_order_transitive(
            a.subrange(1, a.len() as int),
            b.subrange(1, b.len() as int),
            c.subrange(1, c.len() as int),
        );
    }
}

/// Computes [`number_order`].
pub fn compare_numbers(a: u64, b: u64) -> (order: Order)
    ensures
        order == number_order(a as int, b as int),
{
    if a < b {
        Order::Less
    } else if a > b {
        Order::Greater
    } else {
        Order::Equal
    }
}

/// Computes [`bytes_order`].
pub fn compare_bytes(a: &[u8], b: &[u8]) -> (order: Order)
    ensures
        order == bytes_order(a@, b@),
{
    let mut i: usize = 0;
    assert(a@.subrange(0, a@.len() as int) =~= a@);
    assert(b@.subrange(0, b@.len() as int) =~= b@);
    while i < a.len() && i < b.len()
        invariant
            i <= a@.len(),
            i <= b@.len(),
            bytes_order(a@, b@) == bytes_order(
                a@.subrange(i as int, a@.len() as int),
                b@.subrange(i as int, b@.len() as int),
            ),
        decreases a@.len() - i,
    {
        let ghost rest_a = a@.subrange(i as int, a@.len() as int);
        let ghost rest_b = b@.subrange(i as int, b@.len() as int);
        assert(rest_a[0] == a@[i as int] && rest_b[0] == b@[i as int]);
        if a[i] != b[i] {
            return compare_numbers(a[i] as u64, b[i] as u64);
        }
        assert(rest_a.subrange(1, rest_a.len() as int) =~= a@.subrange(i + 1, a@.len() as int));
        assert(rest_b.subrange(1, rest_b.len() as int) =~= b@.subrange(i + 1, b@.len() as int));
        i = i + 1;
    }
    if i < b.len() {
        Order::Less
    } else if i < a.len() {
        Order::Greater
    } else {
        Order::Equal
    }
}

} // verus!
