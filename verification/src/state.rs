use vstd::prelude::*;
use crate::cursor::{CursorData, CursorKind};
use crate::decimal::{decimal, lemma_decimal_digits, lemma_decimal_injective, push_decimal};
use crate::format::ImageFormat;
use crate::keys::{ALT, KeyInput, charcode, is_char_code, valid_modifiers};
use crate::timer::Timer;

verus! {

/// The part of the application state that the capture, naming and shortcut
/// logic reads and writes: everything but the geometry and the pixels.
#[derive(Clone, PartialEq, Debug)]
pub struct AppState {
    pub name: String,
    pub selected_format: ImageFormat,
    pub shortcut: String,
    pub mods: u32,
    pub key: u32,
    pub is_full_screen: bool,
    pub cursor: CursorData,
    pub path: String,
    pub delay: Timer,
    pub resize: bool,
    pub annulla: bool,
    pub text: String,
    pub screen_min_x: u32,
    pub screen_min_y: u32,
}

/// The separator between a folder and a file name.
pub open spec fn separator() -> Seq<char> {
    seq!['\\']
}

/// The name a screenshot is saved under when none was typed.
pub open spec fn default_base() -> Seq<char> {
    "screenshot"@
}

/// The typed name, or the default one where none was typed.
pub open spec fn base_name(name: Seq<char>) -> Seq<char> {
    if name.len() == 0 {
        default_base()
    } else {
        name
    }
}

/// The `index`-th candidate name: the base itself first, then the base
/// followed by the number.
pub open spec fn numbered(base: Seq<char>, index: nat) -> Seq<char> {
    if index == 0 {
        base
    } else {
        base + decimal(index)
    }
}

impl AppState {
    /// The file name of the `index`-th candidate, extension included.
    pub open spec fn candidate(self, index: nat) -> Seq<char> {
        numbered(base_name(self.name@), index) + self.selected_format.extension()
    }

    /// The location of the `index`-th candidate in the chosen folder.
    pub open spec fn candidate_location(self, index: nat) -> Seq<char> {
        self.path@ + separator() + self.candidate(index)
    }

    /// The location a screenshot is saved at under the current name.
    pub open spec fn save_location(self) -> Seq<char> {
        self.path@ + separator() + self.name@ + self.selected_format.extension()
    }

    /// `self` is `prior` with the `index`-th candidate chosen as the name,
    /// and nothing else changed.
    pub open spec fn named_from(self, prior: AppState, index: nat) -> bool {
        &&& self == (AppState { name: self.name, ..prior })
        &&& self.name@ == numbered(base_name(prior.name@), index)
    }

    /// The starting state: no name, JPEG, the shortcut Alt+S, no delay, the
    /// current folder, and the plain arrow over no handle.
    pub fn new() -> (s: AppState)
        ensures
            s.name@.len() == 0,
            s.selected_format == ImageFormat::Jpeg,
            s.shortcut@.len() == 0,
            s.mods == ALT,
            s.key == 's' as u32,
            valid_modifiers(s.mods),
            is_char_code(s.key),
            !s.is_full_screen,
            s.cursor == (CursorData { typ: CursorKind::Arrow, over: None, down: false }),
            s.path@ == "."@,
            s.delay == Timer::Zero,
            !s.resize,
            s.annulla,
            s.text@.len() == 0,
            s.screen_min_x == 0,
            s.screen_min_y == 0,
    {
        proof {
            reveal_strlit("s");
            reveal_strlit(".");
        }
        assert(0x1u32 & !0x3fffu32 == 0) by (bit_vector);
        let shortcut_key = KeyInput::Character(String::from_str("s"));
        AppState {
            name: String::new(),
            selected_format: ImageFormat::Jpeg,
            shortcut: String::new(),
            mods: ALT,
            key: shortcut_key.legacy_charcode(),
            is_full_screen: false,
            cursor: CursorData::new(CursorKind::Arrow, None, false),
            path: String::from_str("."),
            delay: Timer::Zero,
            resize: false,
            annulla: true,
            text: String::new(),
            screen_min_x: 0,
            screen_min_y: 0,
        }
    }

    /// The typed name, or `"screenshot"` where none was typed.
    pub fn default_name_base(&self) -> (base: String)
        ensures
            base@ == base_name(self.name@),
    {
        if self.name.as_str().is_empty() {
            String::from_str("screenshot")
        } else {
            self.name.clone()
        }
    }

    /// The file name of the `index`-th candidate, such as `screenshot.jpeg`
    /// for the first and `screenshot2.jpeg` for the third.
    pub fn candidate_file_name(&self, index: u64) -> (file: String)
        ensures
            file@ == self.candidate(index as nat),
    {
        let mut file = self.default_name_base();
        if index != 0 {
            push_decimal(&mut file, index);
        }
        let ext = self.selected_format.to_string();
        file.append(ext.as_str());
        file
    }

    /// Where the `index`-th candidate would be written: the folder, a
    /// backslash, and the candidate's file name. The caller probes these
    /// locations in turn and picks the first one that is free.
    pub fn candidate_path(&self, index: u64) -> (location: String)
        ensures
            location@ == self.candidate_location(index as nat),
    {
        proof {
            reveal_strlit("\\");
        }
        let mut location = self.path.clone();
        location.append("\\");
        let file = self.candidate_file_name(index);
        location.append(file.as_str());
        location
    }

    /// Takes the `free_index`-th candidate, the first free one, as the name
    /// of the screenshot: the base name where it is the first, the base name
    /// and the number otherwise.
    pub fn set_default_name(&mut self, free_index: u64)
        ensures
            final(self).named_from(*old(self), free_index as nat),
    {
        let mut name = self.default_name_base();
        if free_index != 0 {
            push_decimal(&mut name, free_index);
        }
        self.name = name;
    }

    /// Where a screenshot is saved under the current name and format.
    pub fn save_target(&self) -> (location: String)
        ensures
            location@ == self.save_location(),
    {
        proof {
            reveal_strlit("\\");
        }
        let mut location = self.path.clone();
        location.append("\\");
        location.append(self.name.as_str());
        let ext = self.selected_format.to_string();
        location.append(ext.as_str());
        location
    }
}

/// The file a save writes is the candidate that was found free: once the
/// `index`-th candidate became the name, the save location is exactly the
/// location that was probed for it.
pub proof fn lemma_save_writes_probed_location(prior: AppState, named: AppState, index: nat)
    requires
        named.named_from(prior, index),
    ensures
        named.save_location() == prior.candidate_location(index),
{
    assert(named.save_location() =~= prior.candidate_location(index));
}

/// The candidates are all different, so probing them one after the other
/// never looks at the same location twice.
pub proof fn lemma_candidates_distinct(s: AppState, i: nat, j: nat)
    requires
        i != j,
    ensures
        s.candidate_location(i) != s.candidate_location(j),
{
    let b = base_name(s.name@);
    let ext = s.selected_format.extension();
    let pre = s.path@ + separator();
    if s.candidate_location(i) == s.candidate_location(j) {
        let li = s.candidate_location(i);
        assert(li =~= pre + (numbered(b, i) + ext));
        assert(s.candidate_location(j) =~= pre + (numbered(b, j) + ext));
        assert(numbered(b, i).len() == numbered(b, j).len());
        assert(numbered(b, i) =~= li.subrange(pre.len() as int, (pre.len() + numbered(b, i).len()) as int));
        assert(numbered(b, j) =~= li.subrange(pre.len() as int, (pre.len() + numbered(b, j).len()) as int));
        lemma_decimal_digits(i);
        lemma_decimal_digits(j);
        if i != 0 && j != 0 {
            assert(decimal(i) =~= numbered(b, i).subrange(b.len() as int, numbered(b, i).len() as int));
            assert(decimal(j) =~= numbered(b, j).subrange(b.len() as int, numbered(b, j).len() as int));
            lemma_decimal_injective(i, j);
        }
    }
}

/// The search for the name of a screenshot: the candidates are probed in
/// order, from the first, and the first one whose location is free is taken.
/// `answers` holds, for each candidate probed so far, whether it was taken.
pub struct NameSearch {
    pub next: u64,
    pub found: Option<u64>,
    pub answers: Ghost<Seq<bool>>,
}

impl NameSearch {
    /// `next` is the candidate to probe, every candidate probed before it was
    /// taken, and `found` is the first free one once it was probed.
    pub open spec fn wf(self) -> bool {
        match self.found {
            None => {
                &&& self.answers@.len() == self.next
                &&& forall|j: int| 0 <= j < self.answers@.len() ==> #[trigger] self.answers@[j]
            },
            Some(i) => {
                &&& i == self.next
                &&& self.answers@.len() == i + 1
                &&& !self.answers@[i as int]
                &&& forall|j: int| 0 <= j < i ==> #[trigger] self.answers@[j]
            },
        }
    }

    /// A search that has probed nothing yet.
    pub fn start() -> (s: NameSearch)
        ensures
            s.next == 0,
            s.found is None,
            s.answers@.len() == 0,
            s.wf(),
    {
        NameSearch { next: 0, found: None, answers: Ghost(Seq::empty()) }
    }

    /// The candidate to probe next, or `None` once a free one was found.
    pub fn pending(&self) -> (index: Option<u64>)
        ensures
            index == if self.found is None {
                Some(self.next)
            } else {
                None
            },
    {
        match self.found {
            None => Some(self.next),
            Some(_) => None,
        }
    }

    /// The answer for the pending candidate: whether its location is taken.
    /// A taken one moves the search on to the next candidate, a free one
    /// ends it there.
    pub fn record(&mut self, taken: bool)
        requires
            old(self).found is None,
            old(self).next < u64::MAX,
        ensures
            final(self).answers@ == old(self).answers@.push(taken),
            final(self).found == if taken {
                None
            } else {
                Some(old(self).next)
            },
            final(self).next == if taken {
                (old(self).next + 1) as u64
            } else {
                old(self).next
            },
            old(self).wf() ==> final(self).wf(),
    {
        self.answers = Ghost(self.answers@.push(taken));
        if taken {
            self.next = self.next + 1;
        } else {
            self.found = Some(self.next);
        }
        proof {
            if old(self).wf() {
                assert forall|j: int| 0 <= j < self.answers@.len() - 1 implies #[trigger] self.answers@[j] by {
                    assert(self.answers@[j] == old(self).answers@[j]);
                }
            }
        }
    }
}

/// The name search takes the first free candidate: every candidate before it
/// was taken, and it was not.
pub proof fn lemma_search_finds_first_free(s: NameSearch, i: u64)
    requires
        s.wf(),
        s.found == Some(i),
    ensures
        !s.answers@[i as int],
        forall|j: int| 0 <= j < i ==> #[trigger] s.answers@[j],
        s.answers@.len() == i + 1,
{
}

/// The locations of the first `k` candidates.
pub open spec fn probed_locations(s: AppState, k: nat) -> Set<Seq<char>>
    decreases k,
{
    if k == 0 {
        Set::empty()
    } else {
        probed_locations(s, (k - 1) as nat).insert(s.candidate_location((k - 1) as nat))
    }
}

proof fn lemma_probed_locations(s: AppState, k: nat)
    ensures
        probed_locations(s, k).finite(),
        probed_locations(s, k).len() == k,
        forall|x: Seq<char>| #[trigger] probed_locations(s, k).contains(x) <==> exists|j: nat|
            j < k && s.candidate_location(j) == x,
    decreases k,
{
    if k > 0 {
        let prev = probed_locations(s, (k - 1) as nat);
        let last = s.candidate_location((k - 1) as nat);
        lemma_probed_locations(s, (k - 1) as nat);
        if prev.contains(last) {
            let j = choose|j: nat| j < k - 1 && s.candidate_location(j) == last;
            lemma_candidates_distinct(s, j, (k - 1) as nat);
        }
        assert forall|x: Seq<char>| #[trigger] probed_locations(s, k).contains(x) implies exists|j: nat|
            j < k && s.candidate_location(j) == x by {
            if x != last {
                let j = choose|j: nat| j < k - 1 && s.candidate_location(j) == x;
                assert(j < k && s.candidate_location(j) == x);
            } else {
                let km: nat = (k - 1) as nat;
                assert(km < k && s.candidate_location(km) == x);
            }
        }
        assert forall|x: Seq<char>| (exists|j: nat| j < k && s.candidate_location(j) == x) implies
            #[trigger] probed_locations(s, k).contains(x) by {
            let j = choose|j: nat| j < k && s.candidate_location(j) == x;
            if j < k - 1 {
                assert(prev.contains(x));
            }
        }
    }
}

/// The name search ends: while it runs, every probed candidate was taken,
/// and the candidates are all different, so it never probes more candidates
/// than there are existing files, and asks at most once more than that.
pub proof fn lemma_search_bounded(app: AppState, search: NameSearch, existing: Set<Seq<char>>)
    requires
        existing.finite(),
        search.wf(),
        forall|j: int| 0 <= j < search.answers@.len() ==> #[trigger] search.answers@[j]
            == existing.contains(app.candidate_location(j as nat)),
    ensures
        search.next <= existing.len(),
{
    let k = search.next as nat;
    lemma_probed_locations(app, k);
    let probed = probed_locations(app, k);
    assert forall|x: Seq<char>| #[trigger] probed.contains(x) implies existing.contains(x) by {
        let j = choose|j: nat| j < k && app.candidate_location(j) == x;
        assert(search.answers@[j as int]);
    }
    vstd::set_lib::lemma_len_subset(probed, existing);
}

} // verus!
