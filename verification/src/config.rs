//! The recipe configuration: the 3x3 grid of labels, the label-to-icon
//! mapping, and the per-frame resolution of every slot to an icon path.

use vstd::prelude::*;
use vstd::string::StrSliceExecFns;
use vstd::string::StringExecFns;
use crate::select::{selects, has_item, KeyItem, OneOrMany};

verus! {

/// Whether a character counts as whitespace when the grid is read.
pub uninterp spec fn is_whitespace_char(c: char) -> bool;

/// Relies on char::is_whitespace, which depends on the character alone:
/// the common separators have the White_Space property, printable ASCII
/// does not.
#[verifier::external_body]
fn char_is_whitespace(c: char) -> (r: bool)
    ensures
        r == is_whitespace_char(c),
        c == ' ' ==> r,
        c == '\n' ==> r,
        c == '\t' ==> r,
        c == '\r' ==> r,
        33 <= (c as int) && (c as int) <= 126 ==> !r,
{
    c.is_whitespace()
}

/// The grid characters of `s`: everything but whitespace, in order.
pub open spec fn visible_chars(s: Seq<char>) -> Seq<char>
    decreases s.len(),
{
    if s.len() == 0 {
        Seq::empty()
    } else {
        let rest = visible_chars(s.drop_last());
        if is_whitespace_char(s.last()) {
            rest
        } else {
            rest.push(s.last())
        }
    }
}

/// How often `c` occurs in `cells`.
pub open spec fn occ_count(cells: Seq<char>, c: char) -> nat
    decreases cells.len(),
{
    if cells.len() == 0 {
        0
    } else {
        occ_count(cells.drop_last(), c) + (if cells.last() == c {
            1nat
        } else {
            0nat
        })
    }
}

proof fn lemma_occ_count_le_len(cells: Seq<char>, c: char)
    ensures
        occ_count(cells, c) <= cells.len(),
    decreases cells.len(),
{
    if cells.len() > 0 {
        lemma_occ_count_le_len(cells.drop_last(), c);
    }
}

/// The 3x3 grid of cell labels, row-major; `'_'` marks an empty slot.
pub struct Grid {
    pub cells: Vec<char>,
}

impl Grid {
    /// The grid holds exactly nine labels.
    pub open spec fn wf(&self) -> bool {
        self.cells@.len() == 9
    }

    /// Reads a grid out of a string: its non-whitespace characters fill
    /// the nine cells in order, missing ones count as blank. `None` when
    /// the string holds more than nine non-whitespace characters.
    pub fn parse(s: &str) -> (r: Option<Grid>)
        ensures
            match r {
                Some(g) => g.wf() && visible_chars(s@).len() <= 9 && forall|i: int|
                    0 <= i < 9 ==> g.cells@[i] == (if i < visible_chars(s@).len() {
                        visible_chars(s@)[i]
                    } else {
                        '_'
                    }),
                None => visible_chars(s@).len() > 9,
            },
    {
        let n: usize = s.unicode_len();
        let mut kept: Vec<char> = Vec::new();
        let mut i: usize = 0;
        while i < n
            invariant
                i <= n,
                n == s@.len(),
                kept@ == visible_chars(s@.subrange(0, i as int)),
            decreases n - i,
        {
            let c = s.get_char(i);
            proof {
                assert(s@.subrange(0, i as int + 1).drop_last() =~= s@.subrange(0, i as int));
                assert(s@.subrange(0, i as int + 1).last() == s@[i as int]);
            }
            if !char_is_whitespace(c) {
                kept.push(c);
            }
            i = i + 1;
        }
        proof {
            assert(s@.subrange(0, n as int) =~= s@);
        }
        if kept.len() > 9 {
            return None;
        }
        let ghost visible = visible_chars(s@);
        let mut cells = kept;
        while cells.len() < 9
            invariant
                cells@.len() <= 9,
                visible.len() <= cells@.len(),
                forall|i: int|
                    0 <= i < cells@.len() ==> cells@[i] == (if i < visible.len() {
                        visible[i]
                    } else {
                        '_'
                    }),
            decreases 9 - cells@.len(),
        {
            cells.push('_');
        }
        Some(Grid { cells })
    }

    /// The label in cell `i`.
    pub fn cell(&self, i: usize) -> (c: char)
        requires
            self.wf(),
            i < 9,
        ensures
            c == self.cells@[i as int],
    {
        self.cells[i]
    }

    /// How often label `c` occurs in the grid.
    pub fn count_occurrences(&self, c: char) -> (r: usize)
        requires
            self.wf(),
        ensures
            r == occ_count(self.cells@, c),
            r <= 9,
    {
        proof {
            lemma_occ_count_le_len(self.cells@, c);
        }
        let mut count: usize = 0;
        let mut i: usize = 0;
        while i < 9
            invariant
                i <= 9,
                self.wf(),
                count == occ_count(self.cells@.subrange(0, i as int), c),
                count <= i,
            decreases 9 - i,
        {
            proof {
                assert(self.cells@.subrange(0, i as int + 1).drop_last() =~= self.cells@.subrange(
                    0,
                    i as int,
                ));
                assert(self.cells@.subrange(0, i as int + 1).last() == self.cells@[i as int]);
            }
            if self.cells[i] == c {
                count = count + 1;
            }
            i = i + 1;
        }
        proof {
            assert(self.cells@.subrange(0, 9) =~= self.cells@);
        }
        count
    }
}

/// The label-to-item mapping of a recipe; each label is declared at most
/// once.
pub struct KeyMap {
    pub entries: Vec<(char, KeyItem)>,
}

impl KeyMap {
    /// No label is declared twice.
    pub open spec fn wf(&self) -> bool {
        forall|i: int, j: int|
            0 <= i < j < self.entries@.len() ==> self.entries@[i].0 != self.entries@[j].0
    }

    /// True when the mapping declares label `c`.
    pub open spec fn contains_label(&self, c: char) -> bool {
        exists|i: int| 0 <= i < self.entries@.len() && self.entries@[i].0 == c
    }

    /// The item declared for label `c`.
    pub open spec fn item_of(&self, c: char) -> KeyItem {
        self.entries@[choose|i: int| 0 <= i < self.entries@.len() && self.entries@[i].0 == c].1
    }

    /// Looks label `c` up.
    pub fn get(&self, c: char) -> (r: Option<&KeyItem>)
        requires
            self.wf(),
        ensures
            match r {
                Some(item) => self.contains_label(c) && *item == self.item_of(c),
                None => !self.contains_label(c),
            },
    {
        let n: usize = self.entries.len();
        let mut i: usize = 0;
        while i < n
            invariant
                i <= n,
                n == self.entries@.len(),
                self.wf(),
                forall|j: int| 0 <= j < i ==> self.entries@[j].0 != c,
            decreases n - i,
        {
            if self.entries[i].0 == c {
                return Some(&self.entries[i].1);
            }
            i = i + 1;
        }
        None
    }
}

/// Why per-frame recipe resolution failed.
#[derive(Clone, Copy, Debug, PartialEq, Eq, Structural)]
pub enum RecipeError {
    /// The grid uses a label the key mapping does not declare.
    UnknownItem(char),
    /// The label is declared but offers no icon name.
    NoTextures(char),
    /// The recipe declares no result icon.
    NoResults,
}

/// The index of the last occurrence of `c` in `t`, or `-1`.
pub open spec fn last_index_of(t: Seq<char>, c: char) -> int
    decreases t.len(),
{
    if t.len() == 0 {
        -1
    } else if t.last() == c {
        t.len() - 1
    } else {
        last_index_of(t.drop_last(), c)
    }
}

/// The icon name with any explicit extension removed: an extension starts
/// at the last `'.'`, provided it comes after the last `'/'` and is not
/// the first character of the final path segment.
pub open spec fn stem_of(t: Seq<char>) -> Seq<char> {
    if last_index_of(t, '.') > last_index_of(t, '/') + 1 {
        t.subrange(0, last_index_of(t, '.'))
    } else {
        t
    }
}

/// The path under which an icon name is looked up:
/// `textures/<stem>.png`.
pub open spec fn texture_path_spec(t: Seq<char>) -> Seq<char> {
    "textures/"@ + stem_of(t) + ".png"@
}

/// Builds the lookup path of an icon name.
pub fn texture_path(name: &str) -> (r: String)
    ensures
        r@ == texture_path_spec(name@),
{
    let n: usize = name.unicode_len();
    let mut dot: Option<usize> = None;
    let mut slash: Option<usize> = None;
    let mut i: usize = 0;
    while i < n
        invariant
            i <= n,
            n == name@.len(),
            match dot {
                Some(d) => d == last_index_of(name@.subrange(0, i as int), '.') && d < i,
                None => last_index_of(name@.subrange(0, i as int), '.') == -1,
            },
            match slash {
                Some(d) => d == last_index_of(name@.subrange(0, i as int), '/') && d < i,
                None => last_index_of(name@.subrange(0, i as int), '/') == -1,
            },
        decreases n - i,
    {
        let c = name.get_char(i);
        proof {
            assert(name@.subrange(0, i as int + 1).drop_last() =~= name@.subrange(0, i as int));
            assert(name@.subrange(0, i as int + 1).last() == name@[i as int]);
        }
        if c == '.' {
            dot = Some(i);
        }
        if c == '/' {
            slash = Some(i);
        }
        i = i + 1;
    }
    proof {
        assert(name@.subrange(0, n as int) =~= name@);
    }
    let stem_end: usize = match dot {
        None => n,
        Some(d) => match slash {
            None => if d > 0 {
                d
            } else {
                n
            },
            Some(sl) => if d > sl + 1 {
                d
            } else {
                n
            },
        },
    };
    let stem = name.substring_char(0, stem_end);
    proof {
        if stem_end == n {
            assert(name@.subrange(0, n as int) =~= name@);
        }
    }
    let mut out = String::from_str("textures/");
    out.append(stem);
    out.append(".png");
    out
}

/// A complete recipe configuration.
pub struct Config {
    pub grid: Grid,
    pub result: OneOrMany<String>,
    pub key: KeyMap,
    pub frames: u32,
    pub frame_duration: u16,
}

/// What stops slot `i` from resolving, if anything: an undeclared label,
/// or a declared label with nothing to offer.
pub open spec fn slot_error(cfg: Config, i: int) -> Option<RecipeError> {
    let c = cfg.grid.cells@[i];
    if c == '_' {
        None
    } else if !cfg.key.contains_label(c) {
        Some(RecipeError::UnknownItem(c))
    } else if !has_item(cfg.key.item_of(c)) {
        Some(RecipeError::NoTextures(c))
    } else {
        None
    }
}

/// The first slot error at or after slot `i`, scanning in slot order.
pub open spec fn first_error_from(cfg: Config, i: int) -> Option<RecipeError>
    decreases 9 - i,
{
    if i < 0 || i >= 9 {
        None
    } else if slot_error(cfg, i) is Some {
        slot_error(cfg, i)
    } else {
        first_error_from(cfg, i + 1)
    }
}

proof fn lemma_first_error_found(cfg: Config, k: int, i: int)
    requires
        0 <= k <= i < 9,
        forall|j: int| k <= j < i ==> slot_error(cfg, j) is None,
        slot_error(cfg, i) is Some,
    ensures
        first_error_from(cfg, k) == slot_error(cfg, i),
    decreases i - k,
{
    if k < i {
        lemma_first_error_found(cfg, k + 1, i);
    }
}

proof fn lemma_first_error_none(cfg: Config, k: int)
    requires
        0 <= k <= 9,
        forall|j: int| k <= j < 9 ==> slot_error(cfg, j) is None,
    ensures
        first_error_from(cfg, k) is None,
    decreases 9 - k,
{
    if k < 9 {
        lemma_first_error_none(cfg, k + 1);
    }
}

impl Config {
    /// The grid holds nine labels, no label is declared twice, and at
    /// least one frame is asked for.
    pub open spec fn wf(&self) -> bool {
        self.grid.wf() && self.key.wf() && self.frames >= 1
    }

    /// Resolves the recipe for frame ordinal `index`: an icon path for
    /// each non-blank input slot, `None` for each blank one, and the
    /// result icon's path. Fails with the first slot's error in slot
    /// order, or, when every slot resolves, with `NoResults` if the
    /// recipe declares no result icon.
    pub fn recipe(&self, index: usize) -> (r: Result<(Vec<Option<String>>, String), RecipeError>)
        requires
            self.wf(),
            index * 9 + 8 <= usize::MAX,
        ensures
            match r {
                Ok(out) => {
                    &&& first_error_from(*self, 0) is None
                    &&& self.result.items().len() > 0
                    &&& out.0@.len() == 9
                    &&& forall|i: int|
                        0 <= i < 9 && self.grid.cells@[i] == '_' ==> out.0@[i] is None
                    &&& forall|i: int|
                        0 <= i < 9 && self.grid.cells@[i] != '_' ==> out.0@[i] is Some
                            && exists|t: Seq<char>|
                            selects(
                                self.key.item_of(self.grid.cells@[i]),
                                index as int,
                                occ_count(self.grid.cells@, self.grid.cells@[i]) as int,
                                i,
                                t,
                            ) && out.0@[i]->Some_0@ == texture_path_spec(t)
                    &&& out.1@ == texture_path_spec(
                        self.result.items()[index as int % (self.result.items().len() as int)]@,
                    )
                },
                Err(e) => first_error_from(*self, 0) == Some(e) || (first_error_from(*self, 0)
                    is None && self.result.items().len() == 0 && e == RecipeError::NoResults),
            },
    {
        let mut out: Vec<Option<String>> = Vec::new();
        let mut i: usize = 0;
        while i < 9
            invariant
                i <= 9,
                out@.len() == i,
                forall|j: int| 0 <= j < i ==> out@[j] is None,
            decreases 9 - i,
        {
            out.push(None);
            i = i + 1;
        }
        let mut i: usize = 0;
        while i < 9
            invariant
                i <= 9,
                self.wf(),
                index * 9 + 8 <= usize::MAX,
                out@.len() == 9,
                forall|j: int| i <= j < 9 ==> out@[j] is None,
                forall|j: int| 0 <= j < i ==> slot_error(*self, j) is None,
                forall|j: int| 0 <= j < i && self.grid.cells@[j] == '_' ==> out@[j] is None,
                forall|j: int|
                    0 <= j < i && self.grid.cells@[j] != '_' ==> out@[j] is Some && exists|
                        t: Seq<char>,
                    |
                        selects(
                            self.key.item_of(self.grid.cells@[j]),
                            index as int,
                            occ_count(self.grid.cells@, self.grid.cells@[j]) as int,
                            j,
                            t,
                        ) && out@[j]->Some_0@ == texture_path_spec(t),
            decreases 9 - i,
        {
            let c: char = self.grid.cell(i);
            if c != '_' {
                let count: usize = self.grid.count_occurrences(c);
                proof {
                    assert(index * count <= index * 9) by (nonlinear_arith)
                        requires 0 <= index && 0 <= count <= 9;
                }
                match self.key.get(c) {
                    None => {
                        proof {
                            lemma_first_error_found(*self, 0, i as int);
                        }
                        return Err(RecipeError::UnknownItem(c));
                    },
                    Some(item) => {
                        match item.get_item(index, count, i) {
                            None => {
                                proof {
                                    lemma_first_error_found(*self, 0, i as int);
                                }
                                return Err(RecipeError::NoTextures(c));
                            },
                            Some(texture) => {
                                let path = texture_path(texture);
                                out.set(i, Some(path));
                            },
                        }
                    },
                }
            }
            i = i + 1;
        }
        proof {
            lemma_first_error_none(*self, 0);
        }
        let rlen: usize = self.result.len();
        if rlen == 0 {
            return Err(RecipeError::NoResults);
        }
        let ridx: usize = index % rlen;
        let result: String = match self.result.get(ridx) {
            Some(s) => texture_path(s.as_str()),
            None => {
                return Err(RecipeError::NoResults);
            },
        };
        Ok((out, result))
    }
}

/// An icon name with no explicit extension keeps its full name in the
/// lookup path.
pub proof fn lemma_plain_name_path(t: Seq<char>)
    requires
        last_index_of(t, '.') <= last_index_of(t, '/') + 1,
    ensures
        texture_path_spec(t) == "textures/"@ + t + ".png"@,
{
}

/// The cyclic selection law: in a frame resolved for ordinal `index`, a
/// slot carrying a label declared as a non-empty `cycle` list of
/// extension-free variant names holds the path of variant
/// `(index * count + slot) % variants`, where `count` is the label's
/// occurrence count in the grid. The premises are exactly what
/// `Config::recipe` ensures of such a slot on success.
pub proof fn lemma_cycle_slot_path(
    cfg: Config,
    index: int,
    i: int,
    variants: Vec<String>,
    slot: Option<String>,
)
    requires
        cfg.wf(),
        0 <= index,
        0 <= i < 9,
        cfg.grid.cells@[i] != '_',
        cfg.key.item_of(cfg.grid.cells@[i]) == (KeyItem::List {
            method: crate::select::KeyItemMethod::Cycle,
            items: variants,
        }),
        variants@.len() > 0,
        forall|j: int|
            0 <= j < variants@.len() ==> last_index_of(#[trigger] variants@[j]@, '.')
                <= last_index_of(variants@[j]@, '/') + 1,
        exists|t: Seq<char>|
            selects(
                cfg.key.item_of(cfg.grid.cells@[i]),
                index,
                occ_count(cfg.grid.cells@, cfg.grid.cells@[i]) as int,
                i,
                t,
            ) && slot->Some_0@ == texture_path_spec(t),
    ensures
        slot->Some_0@ == "textures/"@ + variants@[(index * (occ_count(
            cfg.grid.cells@,
            cfg.grid.cells@[i],
        ) as int) + i) % (variants@.len() as int)]@ + ".png"@,
{
    let count = occ_count(cfg.grid.cells@, cfg.grid.cells@[i]) as int;
    let t = choose|t: Seq<char>|
        selects(cfg.key.item_of(cfg.grid.cells@[i]), index, count, i, t) && slot->Some_0@
            == texture_path_spec(t);
    let sel = (index * count + i) % (variants@.len() as int);
    assert(t == variants@[sel]@);
    assert(0 <= sel < variants@.len());
    lemma_plain_name_path(t);
}

/// A label used in the grid but missing from the key mapping, with no
/// slot failing before it, is the first resolution error, and it names
/// exactly that label; by `Config::recipe`'s contract the resolution
/// then fails with that error, which ends the whole run.
pub proof fn lemma_unmapped_label_is_first_error(cfg: Config, i: int)
    requires
        cfg.wf(),
        0 <= i < 9,
        cfg.grid.cells@[i] != '_',
        !cfg.key.contains_label(cfg.grid.cells@[i]),
        forall|j: int| 0 <= j < i ==> slot_error(cfg, j) is None,
    ensures
        first_error_from(cfg, 0) == Some(RecipeError::UnknownItem(cfg.grid.cells@[i])),
{
    assert(slot_error(cfg, i) == Some(RecipeError::UnknownItem(cfg.grid.cells@[i])));
    lemma_first_error_found(cfg, 0, i);
}

} // verus!
