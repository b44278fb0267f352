//! When a LilyPond compile starts, and which finished outputs are taken: the compile queue,
//! its generation counter, and the messages logged about the outputs.

use vstd::prelude::*;

use crate::midi::{matching_midi_file_stem, midi_roll_sort_index, spec_matching_midi_file_stem, spec_midi_file_index};
use crate::paths::{path_eq, path_file_stem, spec_path_eq, spec_path_file_stem};
use crate::project::SelectedScore;
use crate::svg::{is_svg_file, spec_is_svg_file, spec_svg_page_index, svg_page_index};
use crate::text::{concat_strs, decimal_digits, decimal_string, owned};

verus! {

/// The compile queue: whether a compile is asked for, whether one runs, whether finished
/// outputs are being loaded, and the generation of the latest compile.
#[derive(Debug, Clone, Copy, PartialEq, Eq, Structural)]
pub struct CompileQueue {
    pub requested: bool,
    pub session_running: bool,
    pub outputs_loading: bool,
    pub generation: u64,
}

/// What starting a queued compile does.
#[derive(Debug, Clone, Copy, PartialEq, Eq, Structural)]
pub enum CompileStart {
    /// Nothing is queued, a compile still runs, or outputs are still loading.
    Wait,
    /// No score is open: the request is dropped.
    NoScore,
    /// A compile of this generation is to be spawned.
    Start(u64),
}

/// The generation after `g`, wrapping around.
pub open spec fn next_generation(g: u64) -> u64 {
    if g == u64::MAX {
        0
    } else {
        (g + 1) as u64
    }
}

impl CompileQueue {
    /// Nothing asked for, running or loading.
    pub fn new() -> (q: Self)
        ensures
            q == (CompileQueue {
                requested: false,
                session_running: false,
                outputs_loading: false,
                generation: 0,
            }),
    {
        CompileQueue { requested: false, session_running: false, outputs_loading: false, generation: 0 }
    }

    /// Asks for a compile; says whether it was not asked for already (its reason is then
    /// logged).
    pub fn queue(&mut self) -> (newly: bool)
        ensures
            newly == !old(self).requested,
            *final(self) == (CompileQueue { requested: true, ..*old(self) }),
    {
        let newly = !self.requested;
        self.requested = true;
        newly
    }

    /// A queued compile may start: one is asked for, none runs and no outputs load.
    pub open spec fn may_start(&self) -> bool {
        self.requested && !self.session_running && !self.outputs_loading
    }

    /// Whether a queued compile may start.
    pub fn can_start(&self) -> (r: bool)
        ensures
            r == self.may_start(),
    {
        self.requested && !self.session_running && !self.outputs_loading
    }

    /// Starts the queued compile when it may start and a score is open: it would carry the
    /// next generation, which it takes once its build folder is ready (`begin`). Without a
    /// score the request is dropped.
    pub fn start_if_queued(&mut self, has_score: bool) -> (r: CompileStart)
        ensures
            !old(self).may_start() ==> r == CompileStart::Wait && *final(self) == *old(self),
            old(self).may_start() && !has_score ==> r == CompileStart::NoScore && *final(self) == (
            CompileQueue { requested: false, ..*old(self) }),
            old(self).may_start() && has_score ==> r == CompileStart::Start(
                next_generation(old(self).generation),
            ) && *final(self) == *old(self),
    {
        if !self.can_start() {
            return CompileStart::Wait;
        }
        if !has_score {
            self.requested = false;
            return CompileStart::NoScore;
        }
        CompileStart::Start(self.generation.wrapping_add(1))
    }

    /// The build folder of a starting compile is ready: the generation moves on, wrapping
    /// around, and the compile carries the new one. A compile that fails before this keeps
    /// the generation as it was.
    pub fn begin(&mut self) -> (g: u64)
        ensures
            g == next_generation(old(self).generation),
            *final(self) == (CompileQueue { generation: g, ..*old(self) }),
    {
        self.generation = self.generation.wrapping_add(1);
        self.generation
    }

    /// The compile was spawned: it runs, and is no longer asked for.
    pub fn started(&mut self)
        ensures
            *final(self) == (CompileQueue { session_running: true, requested: false, ..*old(self) }),
    {
        self.session_running = true;
        self.requested = false;
    }

    /// The compile could not be started (no build folder, or the process failed to spawn):
    /// the request is dropped.
    pub fn start_failed(&mut self)
        ensures
            *final(self) == (CompileQueue { requested: false, ..*old(self) }),
    {
        self.requested = false;
    }

    /// The running compile ended; its outputs are loaded when it succeeded and a score and
    /// a build folder are there (`true`).
    pub fn finished(&mut self, success: bool, outputs_available: bool) -> (load: bool)
        ensures
            load == (success && outputs_available),
            *final(self) == (CompileQueue {
                session_running: false,
                outputs_loading: if load {
                    true
                } else {
                    old(self).outputs_loading
                },
                ..*old(self)
            }),
    {
        self.session_running = false;
        let load = success && outputs_available;
        if load {
            self.outputs_loading = true;
        }
        load
    }

    /// Loaded outputs arrived, for compile generation `generation`, with the score path they
    /// belong to when loading succeeded. They are taken when they come from the latest
    /// compile and, when loading succeeded, are for the score open now.
    pub fn outputs_ready(
        &mut self,
        generation: u64,
        outputs_score: &Option<String>,
        current_score: &Option<String>,
    ) -> (take: bool)
        ensures
            *final(self) == (CompileQueue { outputs_loading: false, ..*old(self) }),
            take == (generation == old(self).generation && match outputs_score {
                None => true,
                Some(p) => current_score matches Some(c) && spec_path_eq(c@, p@),
            }),
    {
        self.outputs_loading = false;
        if generation != self.generation {
            return false;
        }
        match outputs_score {
            None => true,
            Some(p) => match current_score {
                Some(c) => path_eq(c.as_str(), p.as_str()),
                None => false,
            },
        }
    }

    /// The score was closed: nothing loads any more.
    pub fn score_unloaded(&mut self)
        ensures
            *final(self) == (CompileQueue { outputs_loading: false, ..*old(self) }),
    {
        self.outputs_loading = false;
    }
}

/// What a score shows once compiled: its rendered pages, the maps from the score to its
/// notes, and the playback cursor drawn over it.
#[derive(Debug, Clone)]
pub struct ScoreOutputs<R, M, O> {
    pub rendered: Option<R>,
    pub cursor_maps: Option<M>,
    pub cursor_overlay: Option<O>,
}

impl<R, M, O> ScoreOutputs<R, M, O> {
    /// Nothing shown.
    pub fn new() -> (s: Self)
        ensures
            s.rendered is None,
            s.cursor_maps is None,
            s.cursor_overlay is None,
    {
        ScoreOutputs { rendered: None, cursor_maps: None, cursor_overlay: None }
    }

    /// Forgets the rendered score, its cursor maps and its cursor.
    pub fn clear(&mut self)
        ensures
            final(self).rendered is None,
            final(self).cursor_maps is None,
            final(self).cursor_overlay is None,
    {
        self.rendered = None;
        self.cursor_maps = None;
        self.cursor_overlay = None;
    }
}

/// What opening a score did: the line to log about it, whether the compile request is new
/// (its reason is then logged), and what starting the queued compile did.
#[derive(Debug, Clone)]
pub struct ScoreActivation {
    pub opened_line: String,
    pub newly_queued: bool,
    pub start: CompileStart,
}

/// Opening a score: it becomes the current score, what the old one showed is forgotten,
/// outputs still loading for it are dropped, the opening is logged as
/// `Opened score file <path>`, and a compile is queued and started when none runs.
pub fn activate_score<R, M, O>(
    queue: &mut CompileQueue,
    current: &mut Option<SelectedScore>,
    outputs: &mut ScoreOutputs<R, M, O>,
    score: SelectedScore,
) -> (r: ScoreActivation)
    ensures
        *final(current) == Some(score),
        final(outputs).rendered is None,
        final(outputs).cursor_maps is None,
        final(outputs).cursor_overlay is None,
        r.opened_line@ == "Opened score file "@ + score.path@,
        r.newly_queued == !old(queue).requested,
        ({
            let q1 = CompileQueue { outputs_loading: false, requested: true, ..*old(queue) };
            &&& !q1.session_running ==> r.start == CompileStart::Start(next_generation(q1.generation))
            &&& q1.session_running ==> r.start == CompileStart::Wait
            &&& *final(queue) == q1
        }),
{
    let opened_line = concat_strs("Opened score file ", score.path.as_str());
    outputs.clear();
    queue.score_unloaded();
    *current = Some(score);
    let newly_queued = queue.queue();
    let start = queue.start_if_queued(true);
    ScoreActivation { opened_line, newly_queued, start }
}

/// Outputs of a compile are refused once a newer compile has begun: beginning a compile
/// moves the generation on, so the generation an older compile carried no longer matches.
pub proof fn law_stale_outputs_are_refused(before: CompileQueue, after: CompileQueue)
    requires
        after == (CompileQueue { generation: next_generation(before.generation), ..before }),
    ensures
        after.generation != before.generation,
{
}

/// The page shown after the pages were replaced: the page shown before, or the last page
/// when there are fewer now (the first when there are none).
pub fn page_after_reload(previous_page: usize, page_count: usize) -> (r: usize)
    ensures
        r == if page_count == 0 {
            0
        } else if previous_page < page_count {
            previous_page
        } else {
            (page_count - 1) as usize
        },
{
    let last = if page_count == 0 {
        0
    } else {
        page_count - 1
    };
    if previous_page < last {
        previous_page
    } else {
        last
    }
}

/// `Loaded <n> SVG page(s)`.
pub fn loaded_pages_message(page_count: u64) -> (r: String)
    ensures
        r@ == "Loaded "@ + decimal_digits(page_count as nat) + " SVG page(s)"@,
{
    let head = concat_strs("Loaded ", decimal_string(page_count).as_str());
    proof {
        reveal_strlit("Loaded ");
        reveal_strlit(" SVG page(s)");
    }
    concat_strs(head.as_str(), " SVG page(s)")
}

/// `No MIDI output found`, or `Loaded <n> MIDI file(s)`.
pub fn loaded_midi_message(file_count: u64) -> (r: String)
    ensures
        file_count == 0 ==> r@ == "No MIDI output found"@,
        file_count > 0 ==> r@ == "Loaded "@ + decimal_digits(file_count as nat) + " MIDI file(s)"@,
{
    proof {
        reveal_strlit("No MIDI output found");
        reveal_strlit("Loaded ");
        reveal_strlit(" MIDI file(s)");
    }
    if file_count == 0 {
        return owned("No MIDI output found");
    }
    let head = concat_strs("Loaded ", decimal_string(file_count).as_str());
    concat_strs(head.as_str(), " MIDI file(s)")
}

/// Whether to say that the score cursor is missing because the score turns point-and-click
/// off: the cursor maps are there but empty, and the score turns it off.
pub fn point_and_click_disabled_warning(cursor_maps_empty: Option<bool>, point_and_click_disabled: bool) -> (r:
    bool)
    ensures
        r == (cursor_maps_empty == Some(true) && point_and_click_disabled),
{
    match cursor_maps_empty {
        Some(empty) => empty && point_and_click_disabled,
        None => false,
    }
}

/// Whether to say that the cursor follows the MIDI timeline only: the score has repeats,
/// and the MIDI file, no longer than the cursor map's last tick plus one beat (`ppq`),
/// was not written with its repeats unfolded.
pub fn non_unfolded_repeat_warning(
    score_has_repeats: bool,
    map_max_tick: Option<u64>,
    total_ticks: u64,
    ppq: u16,
) -> (r: bool)
    requires
        map_max_tick matches Some(m) ==> m + ppq <= u64::MAX,
    ensures
        r == (score_has_repeats && (map_max_tick matches Some(m) && total_ticks <= m + ppq)),
{
    if !score_has_repeats {
        return false;
    }
    match map_max_tick {
        Some(max_tick) => total_ticks <= max_tick + ppq as u64,
        None => false,
    }
}

/// Text order: `a` comes before `b` character by character, a proper prefix first.
pub open spec fn text_before(a: Seq<char>, b: Seq<char>) -> bool
    decreases a.len(),
{
    if a.len() == 0 {
        b.len() > 0
    } else if b.len() == 0 {
        false
    } else if a[0] != b[0] {
        a[0] < b[0]
    } else {
        text_before(a.drop_first(), b.drop_first())
    }
}

proof fn lemma_text_before_irreflexive(a: Seq<char>)
    ensures
        !text_before(a, a),
    decreases a.len(),
{
    if a.len() > 0 {
        lemma_text_before_irreflexive(a.drop_first());
    }
}

proof fn lemma_text_before_total(a: Seq<char>, b: Seq<char>)
    ensures
        a == b || text_before(a, b) || text_before(b, a),
    decreases a.len(),
{
    if a.len() > 0 && b.len() > 0 && a[0] == b[0] {
        lemma_text_before_total(a.drop_first(), b.drop_first());
        if a.drop_first() == b.drop_first() {
            assert(a =~= seq![a[0]] + a.drop_first());
            assert(b =~= seq![b[0]] + b.drop_first());
        }
    } else if a.len() == 0 && b.len() == 0 {
        assert(a =~= b);
    }
}

proof fn lemma_text_before_asymmetric(a: Seq<char>, b: Seq<char>)
    requires
        text_before(a, b),
    ensures
        !text_before(b, a),
    decreases a.len(),
{
    if a.len() > 0 && b.len() > 0 && a[0] == b[0] {
        lemma_text_before_asymmetric(a.drop_first(), b.drop_first());
    }
}

proof fn lemma_text_before_transitive(a: Seq<char>, b: Seq<char>, c: Seq<char>)
    requires
        text_before(a, b),
        text_before(b, c),
    ensures
        text_before(a, c),
    decreases a.len(),
{
    if a.len() > 0 && b.len() > 0 && c.len() > 0 && a[0] == b[0] && b[0] == c[0] {
        lemma_text_before_transitive(a.drop_first(), b.drop_first(), c.drop_first());
    }
}

/// Whether text `a` comes before text `b`.
fn chars_before(a: &Vec<char>, b: &Vec<char>) -> (r: bool)
    ensures
        r == text_before(a@, b@),
{
    proof {
        assert(a@.subrange(0, a@.len() as int) =~= a@);
        assert(b@.subrange(0, b@.len() as int) =~= b@);
    }
    let mut i: usize = 0;
    while i < a.len() && i < b.len()
        invariant
            i <= a@.len(),
            i <= b@.len(),
            a@.subrange(0, i as int) == b@.subrange(0, i as int),
            text_before(a@, b@) == text_before(a@.subrange(i as int, a@.len() as int), b@.subrange(i as int, b@.len() as int)),
        decreases a.len() - i,
    {
        if a[i] != b[i] {
            proof {
                let ra = a@.subrange(i as int, a@.len() as int);
                let rb = b@.subrange(i as int, b@.len() as int);
                assert(ra[0] == a@[i as int]);
                assert(rb[0] == b@[i as int]);
            }
            return a[i] < b[i];
        }
        proof {
            let ra = a@.subrange(i as int, a@.len() as int);
            let rb = b@.subrange(i as int, b@.len() as int);
            assert(ra.drop_first() =~= a@.subrange(i + 1, a@.len() as int));
            assert(rb.drop_first() =~= b@.subrange(i + 1, b@.len() as int));
            assert(a@.subrange(0, i + 1) =~= a@.subrange(0, i as int).push(a@[i as int]));
            assert(b@.subrange(0, i + 1) =~= b@.subrange(0, i as int).push(b@[i as int]));
        }
        i += 1;
    }
    proof {
        let ra = a@.subrange(i as int, a@.len() as int);
        let rb = b@.subrange(i as int, b@.len() as int);
        assert(ra.len() == 0 || rb.len() == 0);
    }
    i == a.len() && i < b.len()
}

/// Build outputs are listed by number, then by path as text.
pub open spec fn output_before(a: (u32, Seq<char>), b: (u32, Seq<char>)) -> bool {
    a.0 < b.0 || (a.0 == b.0 && text_before(a.1, b.1))
}

/// The number and the path's text of a build output.
pub open spec fn output_view(item: (u32, String)) -> (u32, Seq<char>) {
    (item.0, item.1@)
}

/// No output comes after a later one.
pub open spec fn outputs_ordered(items: Seq<(u32, String)>) -> bool {
    forall|i: int, j: int|
        0 <= i < j < items.len() ==> !output_before(output_view(items[j]), output_view(items[i]))
}

proof fn lemma_output_before_asymmetric(a: (u32, Seq<char>), b: (u32, Seq<char>))
    requires
        output_before(a, b),
    ensures
        !output_before(b, a),
{
    if a.0 == b.0 {
        lemma_text_before_asymmetric(a.1, b.1);
    }
}

proof fn lemma_output_before_transitive(a: (u32, Seq<char>), b: (u32, Seq<char>), c: (u32, Seq<char>))
    requires
        output_before(a, b),
        output_before(b, c),
    ensures
        output_before(a, c),
{
    if a.0 == b.0 && b.0 == c.0 {
        lemma_text_before_transitive(a.1, b.1, c.1);
    }
}

proof fn lemma_output_order(s: Seq<(u32, String)>, item: (u32, String), pos: int, i: int, j: int)
    requires
        outputs_ordered(s),
        0 <= pos <= s.len(),
        forall|m: int| 0 <= m < pos ==> !output_before(output_view(item), output_view(#[trigger] s[m])),
        pos < s.len() ==> output_before(output_view(item), output_view(s[pos])),
        0 <= i < j < s.len() + 1,
    ensures
        !output_before(output_view(s.insert(pos, item)[j]), output_view(s.insert(pos, item)[i])),
{
    s.insert_ensures(pos, item);
    let t = s.insert(pos, item);
    if j < pos {
        assert(t[i] == s[i] && t[j] == s[j]);
    } else if j == pos {
        assert(t[i] == s[i] && t[j] == item);
    } else if i < pos {
        assert(t[i] == s[i] && t[j] == s[j - 1]);
    } else if i == pos {
        assert(t[i] == item && t[j] == s[j - 1]);
        if output_before(output_view(s[j - 1]), output_view(item)) {
            lemma_output_before_transitive(output_view(s[j - 1]), output_view(item), output_view(s[pos]));
            if j - 1 == pos {
                lemma_output_before_asymmetric(output_view(s[pos]), output_view(item));
            }
        }
    } else {
        assert(t[i] == s[i - 1] && t[j] == s[j - 1]);
    }
}

/// The build outputs (a page or part number, and a path), ordered by number and then by
/// path. Outputs come from one folder, where comparing whole paths as text orders them as
/// their file names.
pub fn order_build_outputs(items: Vec<(u32, String)>) -> (r: Vec<(u32, String)>)
    ensures
        r@.len() == items@.len(),
        r@.to_multiset() == items@.to_multiset(),
        outputs_ordered(r@),
{
    broadcast use vstd::seq_lib::group_to_multiset_ensures;

    let mut out: Vec<(u32, String)> = Vec::new();
    let mut rest = items;
    let ghost input_items = rest@;
    let n = rest.len();
    let mut taken: usize = 0;
    proof {
        assert(input_items.subrange(0, 0) =~= Seq::<(u32, String)>::empty());
        assert(out@ =~= Seq::<(u32, String)>::empty());
    }
    while rest.len() > 0
        invariant
            n == input_items.len(),
            taken + rest@.len() == input_items.len(),
            out@.len() == taken,
            rest@ == input_items.subrange(taken as int, input_items.len() as int),
            out@.to_multiset() == input_items.subrange(0, taken as int).to_multiset(),
            outputs_ordered(out@),
        decreases rest@.len(),
    {
        let item = rest.remove(0);
        proof {
            assert(item == input_items[taken as int]);
            assert(rest@ =~= input_items.subrange(taken + 1, input_items.len() as int));
        }
        let mut pos: usize = 0;
        while pos < out.len() && !item_precedes(&item, &out[pos])
            invariant
                pos <= out@.len(),
                forall|m: int|
                    0 <= m < pos ==> !output_before(output_view(item), output_view(#[trigger] out@[m])),
            decreases out.len() - pos,
        {
            pos += 1;
        }
        let ghost before_insert = out@;
        out.insert(pos, item);
        proof {
            assert(out@ == before_insert.insert(pos as int, item));
            assert(input_items.subrange(0, taken + 1) =~= input_items.subrange(0, taken as int).push(item));
            vstd::seq_lib::to_multiset_insert(before_insert, pos as int, item);
            vstd::seq_lib::to_multiset_build(input_items.subrange(0, taken as int), item);
            assert forall|i: int, j: int| 0 <= i < j < out@.len() implies !output_before(
                output_view(out@[j]),
                output_view(out@[i]),
            ) by {
                lemma_output_order(before_insert, item, pos as int, i, j);
            }
        }
        taken += 1;
    }
    proof {
        assert(input_items.subrange(0, taken as int) =~= input_items);
    }
    out
}

/// Whether output `a` comes before output `b`.
fn item_precedes(a: &(u32, String), b: &(u32, String)) -> (r: bool)
    ensures
        r == output_before(output_view(*a), output_view(*b)),
{
    if a.0 != b.0 {
        return a.0 < b.0;
    }
    let ka = crate::text::chars_of(a.1.as_str());
    let kb = crate::text::chars_of(b.1.as_str());
    chars_before(&ka, &kb)
}


/// The page number of a build-folder entry, when it is an SVG page of the score.
pub open spec fn spec_rendered_page_number(path: Seq<char>, score_stem: Seq<char>) -> Option<u32> {
    if spec_is_svg_file(path) {
        match spec_path_file_stem(path) {
            Some(stem) => spec_svg_page_index(stem, score_stem),
            None => None,
        }
    } else {
        None
    }
}

/// The page number of a build-folder entry, when it is an SVG page of the score.
pub fn rendered_page_number(path: &str, score_stem: &str) -> (r: Option<u32>)
    ensures
        r == spec_rendered_page_number(path@, score_stem@),
{
    if !is_svg_file(path) {
        return None;
    }
    match path_file_stem(path) {
        Some(stem) => svg_page_index(stem.as_str(), score_stem),
        None => None,
    }
}

/// The sort position of a build-folder entry, when it is a MIDI file of the score: its
/// index, or last when its stem carries none.
pub open spec fn spec_midi_roll_position(path: Seq<char>, score_stem: Seq<char>) -> Option<u32> {
    match spec_matching_midi_file_stem(path, score_stem) {
        Some(stem) => Some(
            match spec_midi_file_index(stem, score_stem) {
                Some(i) => i,
                None => u32::MAX,
            },
        ),
        None => None,
    }
}

/// The score's SVG pages among the entries, each with its page number, in entry order.
pub open spec fn spec_page_entries(entries: Seq<String>, score_stem: Seq<char>) -> Seq<(u32, String)>
    decreases entries.len(),
{
    if entries.len() == 0 {
        Seq::empty()
    } else {
        let rest = spec_page_entries(entries.drop_last(), score_stem);
        match spec_rendered_page_number(entries.last()@, score_stem) {
            Some(n) => rest.push((n, entries.last())),
            None => rest,
        }
    }
}

/// The score's MIDI files among the entries, each with its sort position, in entry order.
pub open spec fn spec_midi_entries(entries: Seq<String>, score_stem: Seq<char>) -> Seq<(u32, String)>
    decreases entries.len(),
{
    if entries.len() == 0 {
        Seq::empty()
    } else {
        let rest = spec_midi_entries(entries.drop_last(), score_stem);
        match spec_midi_roll_position(entries.last()@, score_stem) {
            Some(n) => rest.push((n, entries.last())),
            None => rest,
        }
    }
}

/// The score's SVG pages among the build folder's entries, with their page numbers, ordered
/// by page and then by path.
pub fn select_rendered_pages(entries: &Vec<String>, score_stem: &str) -> (r: Vec<(u32, String)>)
    ensures
        r@.to_multiset() == spec_page_entries(entries@, score_stem@).to_multiset(),
        outputs_ordered(r@),
{
    let mut found: Vec<(u32, String)> = Vec::new();
    let mut i: usize = 0;
    while i < entries.len()
        invariant
            i <= entries@.len(),
            found@ == spec_page_entries(entries@.take(i as int), score_stem@),
        decreases entries.len() - i,
    {
        proof {
            assert(entries@.take(i + 1).drop_last() =~= entries@.take(i as int));
        }
        match rendered_page_number(entries[i].as_str(), score_stem) {
            Some(n) => found.push((n, entries[i].clone())),
            None => {},
        }
        i += 1;
    }
    proof {
        assert(entries@.take(i as int) =~= entries@);
    }
    order_build_outputs(found)
}

/// The score's MIDI files among the build folder's entries, with their sort positions,
/// ordered by position and then by path.
pub fn select_midi_roll_paths(entries: &Vec<String>, score_stem: &str) -> (r: Vec<(u32, String)>)
    ensures
        r@.to_multiset() == spec_midi_entries(entries@, score_stem@).to_multiset(),
        outputs_ordered(r@),
{
    let mut found: Vec<(u32, String)> = Vec::new();
    let mut i: usize = 0;
    while i < entries.len()
        invariant
            i <= entries@.len(),
            found@ == spec_midi_entries(entries@.take(i as int), score_stem@),
        decreases entries.len() - i,
    {
        proof {
            assert(entries@.take(i + 1).drop_last() =~= entries@.take(i as int));
        }
        match matching_midi_file_stem(entries[i].as_str(), score_stem) {
            Some(stem) => found.push((midi_roll_sort_index(stem.as_str(), score_stem), entries[i].clone())),
            None => {},
        }
        i += 1;
    }
    proof {
        assert(entries@.take(i as int) =~= entries@);
    }
    order_build_outputs(found)
}

/// The stem of the selected score's file name, under which LilyPond writes its outputs.
pub fn selected_score_stem(selected_file_name: &str) -> (r: Result<String, String>)
    ensures
        match spec_path_file_stem(selected_file_name@) {
            Some(stem) => r matches Ok(s) && s@ == stem,
            None => r matches Err(e) && e@ == "Selected score name has no valid stem"@,
        },
{
    match path_file_stem(selected_file_name) {
        Some(stem) => Ok(stem),
        None => Err(owned("Selected score name has no valid stem")),
    }
}

/// Loaded outputs are refused when LilyPond wrote no SVG page.
pub fn require_rendered_pages(page_count: usize) -> (r: Result<(), String>)
    ensures
        page_count > 0 <==> r is Ok,
        r matches Err(e) ==> e@ == "LilyPond finished without SVG output"@,
{
    if page_count == 0 {
        Err(owned("LilyPond finished without SVG output"))
    } else {
        Ok(())
    }
}

} // verus!
