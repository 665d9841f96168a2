//! Event categories of the reverie daemon and the set of categories a user
//! has switched on.

use vstd::prelude::*;

use crate::text::{push_str, str_eq};

verus! {

/// A family of reverie daemon events.
#[derive(Debug, Copy, Clone, PartialEq, Eq, Hash, Structural)]
pub enum Category {
    MemoryIo,
    Dream,
    Tx,
    Coord,
    Gate,
    Permission,
}

/// The name a category has on the wire (kebab-case).
pub open spec fn wire_seq(c: Category) -> Seq<char> {
    match c {
        Category::MemoryIo => "memory-io"@,
        Category::Dream => "dream"@,
        Category::Tx => "tx"@,
        Category::Coord => "coord"@,
        Category::Gate => "gate"@,
        Category::Permission => "permission"@,
    }
}

/// The category whose wire name is `s`, if any.
pub open spec fn wire_category(s: Seq<char>) -> Option<Category> {
    if s == "memory-io"@ {
        Some(Category::MemoryIo)
    } else if s == "dream"@ {
        Some(Category::Dream)
    } else if s == "tx"@ {
        Some(Category::Tx)
    } else if s == "coord"@ {
        Some(Category::Coord)
    } else if s == "gate"@ {
        Some(Category::Gate)
    } else if s == "permission"@ {
        Some(Category::Permission)
    } else {
        None
    }
}

/// Every category, in the order the panel shows them.
pub open spec fn all_seq() -> Seq<Category> {
    seq![
        Category::MemoryIo,
        Category::Dream,
        Category::Tx,
        Category::Coord,
        Category::Gate,
        Category::Permission,
    ]
}

impl Category {
    pub const ALL: [Category; 6] = [
        Category::MemoryIo,
        Category::Dream,
        Category::Tx,
        Category::Coord,
        Category::Gate,
        Category::Permission,
    ];

    pub fn wire_name(&self) -> (r: &'static str)
        ensures
            r@ == wire_seq(*self),
    {
        match self {
            Category::MemoryIo => "memory-io",
            Category::Dream => "dream",
            Category::Tx => "tx",
            Category::Coord => "coord",
            Category::Gate => "gate",
            Category::Permission => "permission",
        }
    }

    /// The label shown on the category pill; the same as the wire name.
    pub fn display_name(&self) -> (r: &'static str)
        ensures
            r@ == wire_seq(*self),
    {
        self.wire_name()
    }

    pub fn from_wire(s: &str) -> (r: Option<Category>)
        ensures
            r == wire_category(s@),
    {
        if str_eq(s, "memory-io") {
            Some(Category::MemoryIo)
        } else if str_eq(s, "dream") {
            Some(Category::Dream)
        } else if str_eq(s, "tx") {
            Some(Category::Tx)
        } else if str_eq(s, "coord") {
            Some(Category::Coord)
        } else if str_eq(s, "gate") {
            Some(Category::Gate)
        } else if str_eq(s, "permission") {
            Some(Category::Permission)
        } else {
            None
        }
    }
}

/// Reading a category back from its wire name gives the category again, and
/// a name that reads back as a category is that category's wire name.
pub proof fn lemma_wire_name_round_trip(c: Category, s: Seq<char>)
    ensures
        wire_category(wire_seq(c)) == Some(c),
        wire_category(s) matches Some(d) ==> wire_seq(d) == s,
{
    reveal_strlit("memory-io");
    reveal_strlit("dream");
    reveal_strlit("tx");
    reveal_strlit("coord");
    reveal_strlit("gate");
    reveal_strlit("permission");
    assert("memory-io"@.len() == 9);
    assert("dream"@.len() == 5);
    assert("tx"@.len() == 2);
    assert("coord"@.len() == 5);
    assert("gate"@.len() == 4);
    assert("permission"@.len() == 10);
    assert("dream"@[0] != "coord"@[0]);
    assert("dream"@ != "coord"@);
}

/// Two categories share a wire name only when they are the same category.
pub proof fn lemma_wire_name_injective(c: Category, d: Category)
    ensures
        wire_seq(c) == wire_seq(d) ==> c == d,
{
    lemma_wire_name_round_trip(c, wire_seq(c));
    lemma_wire_name_round_trip(d, wire_seq(d));
}

/// `cats` with `c` switched: removed when present, added when absent.
pub open spec fn toggled(cats: Set<Category>, c: Category) -> Set<Category> {
    if cats.contains(c) {
        cats.remove(c)
    } else {
        cats.insert(c)
    }
}

/// The members of `cats`, in the order of [`Category::ALL`].
pub open spec fn in_panel_order(cats: Set<Category>) -> Seq<Category> {
    all_seq().filter(|c: Category| cats.contains(c))
}

/// The wire names of `cats`, separated by commas.
pub open spec fn csv_of(cats: Seq<Category>) -> Seq<char>
    decreases cats.len(),
{
    if cats.len() == 0 {
        Seq::empty()
    } else if cats.len() == 1 {
        wire_seq(cats[0])
    } else {
        csv_of(cats.drop_last()) + ","@ + wire_seq(cats.last())
    }
}

/// The set of categories shown in the feed.
#[derive(Debug, Clone)]
pub struct CategoryFilter {
    memory_io: bool,
    dream: bool,
    tx: bool,
    coord: bool,
    gate: bool,
    permission: bool,
}

impl CategoryFilter {
    closed spec fn flag(self, c: Category) -> bool {
        match c {
            Category::MemoryIo => self.memory_io,
            Category::Dream => self.dream,
            Category::Tx => self.tx,
            Category::Coord => self.coord,
            Category::Gate => self.gate,
            Category::Permission => self.permission,
        }
    }

    /// The enabled categories, in the order of [`Category::ALL`].
    pub open spec fn enabled_seq(self) -> Seq<Category> {
        in_panel_order(self@)
    }
}

impl View for CategoryFilter {
    type V = Set<Category>;

    closed spec fn view(&self) -> Set<Category> {
        Set::new(|c: Category| self.flag(c))
    }
}

impl Default for CategoryFilter {
    /// Memory traffic and dream phases are on; everything else is off.
    fn default() -> (r: Self)
        ensures
            r@ == set![Category::MemoryIo, Category::Dream],
    {
        let r = CategoryFilter {
            memory_io: true,
            dream: true,
            tx: false,
            coord: false,
            gate: false,
            permission: false,
        };
        assert(r@ =~= set![Category::MemoryIo, Category::Dream]);
        r
    }
}

impl CategoryFilter {
    pub fn is_enabled(&self, c: Category) -> (r: bool)
        ensures
            r == self@.contains(c),
    {
        match c {
            Category::MemoryIo => self.memory_io,
            Category::Dream => self.dream,
            Category::Tx => self.tx,
            Category::Coord => self.coord,
            Category::Gate => self.gate,
            Category::Permission => self.permission,
        }
    }

    /// Switches `c` on when it is off and off when it is on.
    pub fn toggle(&mut self, c: Category)
        ensures
            final(self)@ == toggled(old(self)@, c),
    {
        match c {
            Category::MemoryIo => self.memory_io = !self.memory_io,
            Category::Dream => self.dream = !self.dream,
            Category::Tx => self.tx = !self.tx,
            Category::Coord => self.coord = !self.coord,
            Category::Gate => self.gate = !self.gate,
            Category::Permission => self.permission = !self.permission,
        }
        proof {
            assert(self@ =~= toggled(old(self)@, c));
        }
    }

    /// The enabled categories, each once, in the order of [`Category::ALL`].
    pub fn enabled_set(&self) -> (r: Vec<Category>)
        ensures
            r@ == self.enabled_seq(),
    {
        let mut r: Vec<Category> = Vec::new();
        if self.memory_io {
            r.push(Category::MemoryIo);
        }
        if self.dream {
            r.push(Category::Dream);
        }
        if self.tx {
            r.push(Category::Tx);
        }
        if self.coord {
            r.push(Category::Coord);
        }
        if self.gate {
            r.push(Category::Gate);
        }
        if self.permission {
            r.push(Category::Permission);
        }
        proof {
            reveal_with_fuel(Seq::<Category>::filter, 7);
            assert(r@ =~= self.enabled_seq());
        }
        r
    }

    /// The enabled categories as the comma-separated query value that the
    /// events endpoint takes, e.g. `memory-io,dream`.
    pub fn as_query(&self) -> (r: String)
        ensures
            r@ == csv_of(self.enabled_seq()),
    {
        let cats = self.enabled_set();
        let mut out = String::new();
        let mut i: usize = 0;
        while i < cats.len()
            invariant
                i <= cats.len(),
                out@ == csv_of(cats@.take(i as int)),
            decreases cats.len() - i,
        {
            assert(cats@.take(i as int + 1).drop_last() =~= cats@.take(i as int));
            if i > 0 {
                push_str(&mut out, ",");
            }
            push_str(&mut out, cats[i].wire_name());
            i = i + 1;
        }
        assert(cats@.take(cats.len() as int) =~= cats@);
        out
    }
}

/// Toggling the same category twice leaves the filter as it was.
pub proof fn lemma_toggle_twice(before: Set<Category>, c: Category)
    ensures
        toggled(toggled(before, c), c) == before,
{
    assert(toggled(toggled(before, c), c) =~= before);
}

/// The comma-separated pieces of `s` (an empty `s` is one empty piece).
pub open spec fn split_commas(s: Seq<char>) -> Seq<Seq<char>>
    decreases s.len(),
{
    if s.len() == 0 {
        seq![Seq::empty()]
    } else {
        let init = split_commas(s.drop_last());
        if s.last() == ',' {
            init.push(Seq::empty())
        } else {
            init.update(init.len() - 1, init.last().push(s.last()))
        }
    }
}

proof fn lemma_split_nonempty(s: Seq<char>)
    ensures
        split_commas(s).len() >= 1,
    decreases s.len(),
{
    if s.len() > 0 {
        lemma_split_nonempty(s.drop_last());
    }
}

proof fn lemma_split_append_plain(x: Seq<char>, y: Seq<char>)
    requires
        !y.contains(','),
    ensures
        split_commas(x + y) == split_commas(x).update(
            split_commas(x).len() - 1,
            split_commas(x).last() + y,
        ),
    decreases y.len(),
{
    lemma_split_nonempty(x);
    if y.len() == 0 {
        assert(x + y =~= x);
        assert(split_commas(x).last() + y =~= split_commas(x).last());
        assert(split_commas(x).update(split_commas(x).len() - 1, split_commas(x).last())
            =~= split_commas(x));
    } else {
        let y0 = y.drop_last();
        let c = y.last();
        assert(!y0.contains(',')) by {
            if y0.contains(',') {
                let k = choose|k: int| 0 <= k < y0.len() && y0[k] == ',';
                assert(y[k] == ',');
            }
        }
        assert(c != ',') by {
            assert(y[y.len() - 1] == c);
        }
        lemma_split_append_plain(x, y0);
        assert((x + y).drop_last() =~= x + y0);
        assert((x + y).last() == c);
        lemma_split_nonempty(x + y0);
        let sx = split_commas(x);
        let n = sx.len() - 1;
        assert(split_commas(x + y) =~= sx.update(n, sx.last() + y0).update(n, (sx.last() + y0).push(c)));
        assert((sx.last() + y0).push(c) =~= sx.last() + y);
        assert(sx.update(n, sx.last() + y0).update(n, sx.last() + y) =~= sx.update(n, sx.last() + y));
    }
}

proof fn lemma_split_append_piece(x: Seq<char>, y: Seq<char>)
    requires
        !y.contains(','),
    ensures
        split_commas(x + ","@ + y) == split_commas(x).push(y),
{
    reveal_strlit(",");
    let xc = x + ","@;
    assert(xc.drop_last() =~= x);
    assert(xc.last() == ',');
    assert(split_commas(xc) == split_commas(x).push(Seq::empty()));
    lemma_split_append_plain(xc, y);
    let sx = split_commas(x).push(Seq::<char>::empty());
    assert(sx.update(sx.len() - 1, sx.last() + y) =~= split_commas(x).push(y));
}

proof fn lemma_wire_names_have_no_comma(c: Category)
    ensures
        !wire_seq(c).contains(','),
{
    reveal_strlit("memory-io");
    reveal_strlit("dream");
    reveal_strlit("tx");
    reveal_strlit("coord");
    reveal_strlit("gate");
    reveal_strlit("permission");
}

proof fn lemma_split_csv(cats: Seq<Category>)
    requires
        cats.len() >= 1,
    ensures
        split_commas(csv_of(cats)) == cats.map_values(|c: Category| wire_seq(c)),
    decreases cats.len(),
{
    if cats.len() == 1 {
        lemma_wire_names_have_no_comma(cats[0]);
        lemma_split_append_plain(Seq::empty(), wire_seq(cats[0]));
        assert(Seq::<char>::empty() + wire_seq(cats[0]) =~= wire_seq(cats[0]));
        assert(Seq::<char>::empty() + wire_seq(cats[0]) =~= csv_of(cats));
        assert(split_commas(csv_of(cats)) =~= cats.map_values(|c: Category| wire_seq(c)));
    } else {
        lemma_split_csv(cats.drop_last());
        lemma_wire_names_have_no_comma(cats.last());
        lemma_split_append_piece(csv_of(cats.drop_last()), wire_seq(cats.last()));
        assert(cats.map_values(|c: Category| wire_seq(c)) =~= cats.drop_last().map_values(
            |c: Category| wire_seq(c),
        ).push(wire_seq(cats.last())));
    }
}

/// Reading the categories query back: splitting it at the commas gives the
/// wire names of the enabled categories, in panel order, and each of them
/// reads back as its category. (With nothing enabled the query is empty.)
pub proof fn lemma_query_reads_back(enabled: Set<Category>)
    ensures
        in_panel_order(enabled).len() >= 1 ==> split_commas(csv_of(in_panel_order(enabled)))
            == in_panel_order(enabled).map_values(|c: Category| wire_seq(c)),
        in_panel_order(enabled).len() == 0 ==> csv_of(in_panel_order(enabled)).len() == 0,
        forall|c: Category| wire_category(#[trigger] wire_seq(c)) == Some(c),
{
    if in_panel_order(enabled).len() >= 1 {
        lemma_split_csv(in_panel_order(enabled));
    }
    assert forall|c: Category| wire_category(#[trigger] wire_seq(c)) == Some(c) by {
        lemma_wire_name_round_trip(c, wire_seq(c));
    }
}

} // verus!
