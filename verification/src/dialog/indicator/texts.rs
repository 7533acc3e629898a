//! What is shown in place of a passphrase.
use rand::seq::SliceRandom;
use vstd::prelude::*;

use crate::config;

verus! {

/// `rand::seq::SliceRandom::shuffle` with the generator of the thread: the elements are
/// put in some other order. Nothing is said of which.
#[verifier::external_body]
fn shuffle(items: &mut [String])
    ensures
        final(items)@.len() == old(items)@.len(),
        final(items)@.to_multiset() == old(items)@.to_multiset(),
{
    items.shuffle(&mut rand::thread_rng());
}

/// Strings that take turns, with a special one for what was pasted.
pub struct Custom {
    pub strings: Vec<String>,
}

impl Custom {
    /// There is the special string and at least one other.
    pub open spec fn wf(self) -> bool {
        self.strings@.len() >= 2
    }

    /// Takes the strings of the settings. Where they are to be in random order, the first
    /// one keeps its place.
    pub fn new(config: config::Custom) -> (r: Custom)
        requires
            config.strings@.len() >= 2,
        ensures
            r.wf(),
            r.strings@.len() == config.strings@.len(),
            r.strings@[0] == config.strings@[0],
            r.strings@.skip(1).to_multiset() == config.strings@.skip(1).to_multiset(),
            !config.randomize ==> r.strings == config.strings,
    {
        let mut strings = config.strings;
        if config.randomize {
            let (head, tail) = strings.as_mut_slice().split_at_mut(1);
            let ghost before = tail@;
            assert(before =~= config.strings@.skip(1));
            shuffle(tail);
            let ghost after = tail@;
            assert(strings@.skip(1) =~= after);
        }
        Custom { strings }
    }

    /// The place of the string that stands for a passphrase of `len` characters.
    pub open spec fn shown_index(self, len: nat, show_paste: bool) -> int {
        if show_paste {
            0
        } else {
            (len - 1) % (self.strings@.len() - 1) + 1
        }
    }

    /// What is shown for a passphrase of `len` characters.
    pub open spec fn spec_text(self, len: nat, show_paste: bool) -> Seq<char> {
        if len == 0 {
            seq![]
        } else {
            self.strings@[self.shown_index(len, show_paste)]@
        }
    }

    /// What is shown for a passphrase of `len` characters.
    pub fn set_text(&self, len: usize, show_paste: bool) -> (r: String)
        requires
            self.wf(),
        ensures
            r@ == self.spec_text(len as nat, show_paste),
    {
        if len == 0 {
            return String::new();
        }
        let idx: usize = if show_paste {
            0
        } else {
            (len - 1) % (self.strings.len() - 1) + 1
        };
        self.strings[idx].clone()
    }
}

/// Figures that dance as the passphrase grows.
pub struct Disco {
    pub dancer_count: u16,
    pub config: config::Disco,
}

/// The poses of a figure: the one for what was pasted, and three others.
pub open spec fn dancer_text(idx: int) -> Seq<char> {
    if idx == 0 {
        "┗(･o･)┛"@
    } else if idx == 1 {
        "┏(･o･)┛"@
    } else if idx == 2 {
        "┗(･o･)┓"@
    } else {
        "┏(･o･)┓"@
    }
}

/// The figure in the pose `idx`.
pub fn dancer(idx: usize) -> (r: &'static str)
    requires
        idx < 4,
    ensures
        r@ == dancer_text(idx as int),
{
    if idx == 0 {
        "┗(･o･)┛"
    } else if idx == 1 {
        "┏(･o･)┛"
    } else if idx == 2 {
        "┗(･o･)┓"
    } else {
        "┏(･o･)┓"
    }
}

/// What stands between two figures.
pub const SEPARATOR: &'static str = " ♪ ";

/// `n` copies of `unit` with `separator` between each two.
pub open spec fn joined(unit: Seq<char>, separator: Seq<char>, n: nat) -> Seq<char>
    decreases n,
{
    if n == 0 {
        seq![]
    } else if n == 1 {
        unit
    } else {
        joined(unit, separator, (n - 1) as nat) + separator + unit
    }
}

/// The first `n` copies of `unit`, each but the last of `total` followed by `separator`.
spec fn joined_part(unit: Seq<char>, separator: Seq<char>, n: nat, total: nat) -> Seq<char> {
    if n < total && n > 0 {
        joined(unit, separator, n) + separator
    } else {
        joined(unit, separator, n)
    }
}

impl Disco {
    /// Figures that have not been counted yet.
    pub fn new(config: config::Disco) -> (r: Disco)
        ensures
            r.dancer_count == 0,
            r.config == config,
    {
        Disco { dancer_count: 0, config }
    }

    /// Sets the number of figures for a width in which `wanted` of them have room.
    pub fn for_width(&mut self, wanted: u16)
        ensures
            final(self).config == old(self).config,
            final(self).dancer_count == super::clamped(
                wanted,
                old(self).config.min_count,
                old(self).config.max_count,
            ),
    {
        self.dancer_count = super::clamp_count(wanted, self.config.min_count, self.config.max_count);
    }

    /// The texts that have to fit: that of no character, and one for each pose.
    pub open spec fn spec_widths(self) -> Seq<Seq<char>> {
        Seq::new(
            if self.config.three_states {
                4
            } else {
                3
            },
            |l: int| self.spec_text(l as nat, l == 0),
        )
    }

    /// The texts of which the widest sets the width of the indicator.
    pub fn widths(&self) -> (r: Vec<String>)
        ensures
            r@.len() == self.spec_widths().len(),
            forall|l: int| 0 <= l < r@.len() ==> (#[trigger] r@[l])@ == self.spec_widths()[l],
    {
        let last: usize = if self.config.three_states {
            4
        } else {
            3
        };
        let mut r: Vec<String> = Vec::new();
        for l in 0..last
            invariant
                last == self.spec_widths().len(),
                r@.len() == l,
                forall|j: int| 0 <= j < l ==> (#[trigger] r@[j])@ == self.spec_widths()[j],
        {
            r.push(self.set_text(l, l == 0));
        }
        r
    }

    /// The pose of all figures for a passphrase of `len` characters.
    pub open spec fn pose(self, len: nat, show_paste: bool) -> int {
        if show_paste {
            0
        } else if self.config.three_states {
            len as int % 3 + 1
        } else {
            len as int % 2 + 1
        }
    }

    /// What is shown for a passphrase of `len` characters.
    pub open spec fn spec_text(self, len: nat, show_paste: bool) -> Seq<char> {
        if len == 0 {
            seq![]
        } else {
            joined(dancer_text(self.pose(len, show_paste)), SEPARATOR@, self.dancer_count as nat)
        }
    }

    /// What is shown for a passphrase of `len` characters.
    pub fn set_text(&self, len: usize, show_paste: bool) -> (r: String)
        ensures
            r@ == self.spec_text(len as nat, show_paste),
    {
        let mut buf = String::new();
        if len == 0 {
            return buf;
        }
        let states: usize = if self.config.three_states {
            3
        } else {
            2
        };
        let idx: usize = if show_paste {
            0
        } else {
            len % states + 1
        };
        let unit = dancer(idx);
        for i in 0..self.dancer_count
            invariant
                unit@ == dancer_text(idx as int),
                buf@ == joined_part(unit@, SEPARATOR@, i as nat, self.dancer_count as nat),
        {
            buf.append(unit);
            if i + 1 != self.dancer_count {
                buf.append(SEPARATOR);
            }
            assert(buf@ =~= joined_part(
                unit@,
                SEPARATOR@,
                (i + 1) as nat,
                self.dancer_count as nat,
            ));
        }
        buf
    }
}

/// One string for each character.
pub struct Asterisk {
    pub asterisk: String,
    pub count: u16,
    pub min_count: u16,
    pub max_count: u16,
}

impl Asterisk {
    /// Takes the string and the limits of the settings.
    pub fn new(config: config::Asterisk) -> (r: Asterisk)
        ensures
            r.asterisk == config.asterisk,
            r.count == 0,
            r.min_count == config.min_count,
            r.max_count == config.max_count,
    {
        Asterisk {
            asterisk: config.asterisk,
            count: 0,
            min_count: config.min_count,
            max_count: config.max_count,
        }
    }

    /// Sets the number of strings for a width in which `wanted` of them have room, and
    /// returns the text of which the width is that of the indicator.
    pub fn for_width(&mut self, wanted: u16) -> (r: String)
        ensures
            final(self).count == super::clamped(wanted, old(self).min_count, old(self).max_count),
            *final(self) == (Asterisk { count: final(self).count, ..*old(self) }),
            r@ == crate::text::repeated(old(self).asterisk@, final(self).count as nat),
    {
        self.count = super::clamp_count(wanted, self.min_count, self.max_count);
        crate::text::repeat(self.asterisk.as_str(), self.count as usize)
    }

    /// What is shown for a passphrase of `len` characters.
    pub fn set_text(&self, len: usize) -> (r: String)
        ensures
            r@ == crate::text::repeated(self.asterisk@, len as nat),
    {
        if len == 0 {
            return String::new();
        }
        crate::text::repeat(self.asterisk.as_str(), len)
    }
}

/// What stands for a passphrase that is not shown.
pub enum StringType {
    Disco(Disco),
    Custom(Custom),
    Asterisk(Asterisk),
}

impl StringType {
    /// The strings can be used.
    pub open spec fn wf(self) -> bool {
        self matches StringType::Custom(custom) ==> custom.wf()
    }

    /// Whether the text has a place for each character, so that the cursor can move in it.
    pub open spec fn spec_use_cursor(self) -> bool {
        self is Asterisk
    }

    /// Takes what the settings ask for.
    pub fn new(config: config::StringType) -> (r: StringType)
        requires
            config matches config::StringType::Custom { custom } ==> custom.strings@.len() >= 2,
        ensures
            r.wf(),
            match config {
                config::StringType::Disco { disco } => r matches StringType::Disco(d) && d.config
                    == disco && d.dancer_count == 0,
                config::StringType::Custom { custom } => r matches StringType::Custom(c)
                    && c.strings@.len() == custom.strings@.len() && c.strings@[0]
                    == custom.strings@[0] && c.strings@.skip(1).to_multiset()
                    == custom.strings@.skip(1).to_multiset() && (!custom.randomize ==> c.strings
                    == custom.strings),
                config::StringType::Asterisk { asterisk } => r matches StringType::Asterisk(a)
                    && a.asterisk == asterisk.asterisk && a.count == 0 && a.min_count
                    == asterisk.min_count && a.max_count == asterisk.max_count,
            },
    {
        match config {
            config::StringType::Disco { disco } => StringType::Disco(Disco::new(disco)),
            config::StringType::Custom { custom } => StringType::Custom(Custom::new(custom)),
            config::StringType::Asterisk { asterisk } => StringType::Asterisk(
                Asterisk::new(asterisk),
            ),
        }
    }

    /// Whether the cursor can move in the text.
    pub fn use_cursor(&self) -> (r: bool)
        ensures
            r == self.spec_use_cursor(),
    {
        match self {
            StringType::Disco(_) | StringType::Custom(_) => false,
            StringType::Asterisk(_) => true,
        }
    }

    /// What is shown for a passphrase of `len` characters.
    pub open spec fn spec_text(self, len: nat, show_paste: bool) -> Seq<char> {
        match self {
            StringType::Disco(disco) => disco.spec_text(len, show_paste),
            StringType::Custom(custom) => custom.spec_text(len, show_paste),
            StringType::Asterisk(asterisk) => crate::text::repeated(asterisk.asterisk@, len),
        }
    }

    /// What is shown for a passphrase of `len` characters.
    pub fn set_text(&self, len: usize, show_paste: bool) -> (r: String)
        requires
            self.wf(),
        ensures
            r@ == self.spec_text(len as nat, show_paste),
    {
        match self {
            StringType::Disco(disco) => disco.set_text(len, show_paste),
            StringType::Custom(custom) => custom.set_text(len, show_paste),
            StringType::Asterisk(asterisk) => asterisk.set_text(len),
        }
    }

    /// `r` are the texts of which the widest sets the width, with the strings `new` after
    /// they have been fitted to a width in which `wanted` of them have room.
    pub open spec fn sizes(self, wanted: u16, r: Seq<String>, new: StringType) -> bool {
        match (self, new) {
            (StringType::Disco(a), StringType::Disco(b)) => {
                &&& b == (Disco {
                    dancer_count: super::clamped(wanted, a.config.min_count, a.config.max_count),
                    ..a
                })
                &&& r.len() == b.spec_widths().len()
                &&& forall|l: int|
                    0 <= l < r.len() ==> (#[trigger] r[l])@ == b.spec_widths()[l]
            },
            (StringType::Custom(a), _) => {
                &&& new == self
                &&& r.len() == a.strings@.len()
                &&& forall|l: int| 0 <= l < r.len() ==> (#[trigger] r[l])@ == a.strings@[l]@
            },
            (StringType::Asterisk(a), StringType::Asterisk(b)) => {
                let count = super::clamped(wanted, a.min_count, a.max_count);
                &&& b == (Asterisk { count, ..a })
                &&& r.len() == 1
                &&& r[0]@ == crate::text::repeated(a.asterisk@, count as nat)
            },
            _ => false,
        }
    }

    /// Sets the number of strings for a width in which `wanted` of them have room, and
    /// returns the texts of which the widest sets the width of the indicator.
    pub fn for_width(&mut self, wanted: u16) -> (r: Vec<String>)
        ensures
            final(self).wf() == old(self).wf(),
            old(self).sizes(wanted, r@, *final(self)),
    {
        match self {
            StringType::Disco(disco) => {
                disco.for_width(wanted);
                disco.widths()
            },
            StringType::Custom(custom) => {
                let mut r: Vec<String> = Vec::new();
                for l in 0..custom.strings.len()
                    invariant
                        r@.len() == l,
                        forall|j: int|
                            0 <= j < l ==> (#[trigger] r@[j])@ == custom.strings@[j]@,
                {
                    r.push(custom.strings[l].clone());
                }
                r
            },
            StringType::Asterisk(asterisk) => {
                let text = asterisk.for_width(wanted);
                vec![text]
            },
        }
    }
}

/// The strings take turns: the second of the list stands for one character, each further
/// character brings the string after it, and after the last comes the second again. The first
/// of the list is only for what was pasted, and nothing stands for no characters.
pub proof fn lemma_strings_take_turns(custom: Custom, len: nat)
    requires
        custom.wf(),
    ensures
        custom.spec_text(0, false).len() == 0 && custom.spec_text(0, true).len() == 0,
        len > 0 ==> custom.spec_text(len, true) == custom.strings@[0]@,
        custom.spec_text(1, false) == custom.strings@[1]@,
        len > 0 ==> exists|i: int|
            {
                &&& 1 <= i < custom.strings@.len()
                &&& custom.spec_text(len, false) == (#[trigger] custom.strings@[i])@
                &&& custom.spec_text(len + 1, false) == custom.strings@[if i + 1
                    == custom.strings@.len() {
                    1
                } else {
                    i + 1
                }]@
                &&& custom.spec_text((len + custom.strings@.len() - 1) as nat, false)
                    == custom.spec_text(len, false)
            },
{
    let count = custom.strings@.len() - 1;
    super::lemma_step_round(0, count);
    if len > 0 {
        super::lemma_step_round(len - 1, count);
        let i = custom.shown_index(len, false);
        assert(custom.spec_text(len, false) == custom.strings@[i]@);
        vstd::arithmetic::div_mod::lemma_mod_add_multiples_vanish(len - 1, count);
        assert(len + count - 1 == count + (len - 1));
    }
}

/// The figures change their pose with each character and come back to it after as many
/// characters as there are poses. What was pasted has a pose of its own, and nothing stands for
/// no characters.
pub proof fn lemma_figures_dance(disco: Disco, len: nat)
    requires
        len > 0,
    ensures
        disco.spec_text(0, false).len() == 0 && disco.spec_text(0, true).len() == 0,
        disco.pose(len, true) == 0,
        1 <= disco.pose(len, false) <= (if disco.config.three_states {
            3int
        } else {
            2
        }),
        disco.pose(len + 1, false) == (if disco.pose(len, false) == (
        if disco.config.three_states {
            3int
        } else {
            2
        }) {
            1
        } else {
            disco.pose(len, false) + 1
        }),
        disco.pose(1, false) == 2,
{
}

/// The text of the figures is as many of them as there is room for, each in the pose for the
/// length of the passphrase, with a note between each two.
pub proof fn lemma_figures_in_a_row(disco: Disco, len: nat, show_paste: bool, k: int)
    requires
        len > 0,
        0 <= k < disco.dancer_count,
    ensures
        ({
            let unit = dancer_text(disco.pose(len, show_paste));
            let step = unit.len() + " ♪ "@.len();
            let text = disco.spec_text(len, show_paste);
            &&& text.len() + " ♪ "@.len() == disco.dancer_count * step
            &&& text.subrange(k * step, k * step + unit.len()) == unit
            &&& k + 1 < disco.dancer_count ==> text.subrange(
                k * step + unit.len(),
                (k + 1) * step,
            ) == " ♪ "@
        }),
{
    lemma_joined_blocks(
        dancer_text(disco.pose(len, show_paste)),
        SEPARATOR@,
        disco.dancer_count as nat,
        k,
    );
}

proof fn lemma_joined_blocks(unit: Seq<char>, separator: Seq<char>, n: nat, k: int)
    requires
        0 <= k < n,
    ensures
        ({
            let step = unit.len() + separator.len();
            let text = joined(unit, separator, n);
            &&& text.len() + separator.len() == n * step
            &&& 0 <= k * step && k * step + unit.len() <= text.len()
            &&& text.subrange(k * step, k * step + unit.len()) == unit
            &&& k + 1 < n ==> (k + 1) * step <= text.len() && text.subrange(
                k * step + unit.len(),
                (k + 1) * step,
            ) == separator
        }),
    decreases n,
{
    let step = (unit.len() + separator.len()) as int;
    let text = joined(unit, separator, n);
    if n == 1 {
        assert(k == 0);
        assert(text.subrange(0, unit.len() as int) =~= unit);
    } else {
        let shorter = joined(unit, separator, (n - 1) as nat);
        lemma_joined_blocks(unit, separator, (n - 1) as nat, if k < n - 1 {
            k
        } else {
            0
        });
        assert(text == shorter + separator + unit);
        assert(n * step == (n - 1) * step + step) by (nonlinear_arith);
        assert((k + 1) * step == k * step + step) by (nonlinear_arith);
        assert(shorter.len() + separator.len() == (n - 1) * step);
        if k < n - 1 {
            assert(text.subrange(k * step, k * step + unit.len()) =~= shorter.subrange(
                k * step,
                k * step + unit.len(),
            ));
            if k + 1 < n - 1 {
                assert(text.subrange(k * step + unit.len(), (k + 1) * step) =~= shorter.subrange(
                    k * step + unit.len(),
                    (k + 1) * step,
                ));
            } else {
                assert(k + 1 == n - 1);
                assert((k + 1) * step == (n - 1) * step);
                assert(text.subrange(k * step + unit.len(), (k + 1) * step) =~= separator);
            }
        } else {
            assert(k * step == (n - 1) * step);
            assert(text.subrange(k * step, k * step + unit.len()) =~= unit);
        }
    }
}

/// The figures lift their left arms in every second pose and their right arms in the later
/// two, so that no two poses look the same.
pub proof fn lemma_poses_differ(a: int, b: int)
    requires
        0 <= a < 4,
        0 <= b < 4,
    ensures
        dancer_text(a).len() == 7,
        dancer_text(a).subrange(1, 6) == dancer_text(b).subrange(1, 6),
        (dancer_text(a)[0] == dancer_text(b)[0]) == (a % 2 == b % 2),
        (dancer_text(a)[6] == dancer_text(b)[6]) == (a / 2 == b / 2),
        dancer_text(a) == dancer_text(b) ==> a == b,
{
    reveal_strlit("┗(･o･)┛");
    reveal_strlit("┏(･o･)┛");
    reveal_strlit("┗(･o･)┓");
    reveal_strlit("┏(･o･)┓");
    assert(dancer_text(a).subrange(1, 6) =~= dancer_text(b).subrange(1, 6));
    assert(a == 2 * (a / 2) + a % 2 && b == 2 * (b / 2) + b % 2);
}

/// Whatever the length of a passphrase that is typed, its text is among those for which there
/// is room.
pub proof fn lemma_room_for_every_pose(disco: Disco, len: nat)
    ensures
        disco.spec_widths().contains(disco.spec_text(len, false)),
{
    let states: int = if disco.config.three_states {
        3
    } else {
        2
    };
    let l: int = if len == 0 {
        0
    } else if len as int % states == 0 {
        states
    } else {
        len as int % states
    };
    assert(disco.spec_widths()[l] == disco.spec_text(len, false));
}

/// The row of strings has one for each character, so that a string of one character gives the
/// text as many places as the passphrase has.
pub proof fn lemma_one_string_for_each_character(asterisk: Asterisk, len: nat, show_paste: bool)
    ensures
        StringType::Asterisk(asterisk).spec_text(len, show_paste).len() == len
            * asterisk.asterisk@.len(),
        forall|i: int|
            0 <= i < len * asterisk.asterisk@.len() ==> #[trigger] StringType::Asterisk(
                asterisk,
            ).spec_text(len, show_paste)[i] == asterisk.asterisk@[i
                % asterisk.asterisk@.len() as int],
{
    crate::text::lemma_repeated(asterisk.asterisk@, len);
}

/// Only a row of strings has a place for each character.
pub proof fn lemma_where_the_cursor_moves(strings: StringType)
    ensures
        strings.spec_use_cursor() <==> strings is Asterisk,
{
}

} // verus!
