//! Turns what `powermetrics` reports into labelled per-process samples,
//! and decides what the sampling loop does next.
use vstd::hash_map::StringHashMap;
use vstd::prelude::*;

use crate::subprocess::app_table::lemma_app_names_canonical;
use crate::subprocess::app_table::named_like_its_process;
use crate::subprocess::app_table::APP_TABLE;
use crate::subprocess::app_table::APP_TABLE_LEN;
use crate::schema::rfc3339_instant;
use crate::schema::timestamp_matches;
use crate::schema::Timestamp;
use crate::text::chars_of;
use crate::text::contains;
use crate::text::contains_exec;
use crate::text::decimal;
use crate::text::format_u64;
use crate::text::split_on;
use crate::text::split_ranges;
use crate::text::starts_with;
use crate::text::starts_with_exec;

verus! {


// ---------------------------------------------------------------------------
// Process names to applications
// ---------------------------------------------------------------------------

/// The map from process names to application names.
pub type AppMap = StringHashMap<&'static str>;

/// The map that setting each entry of `entries` in turn builds: a later entry
/// for the same process name replaces an earlier one.
pub open spec fn table_map(entries: Seq<(&'static str, &'static str)>) -> Map<
    Seq<char>,
    &'static str,
>
    decreases entries.len(),
{
    if entries.len() == 0 {
        Map::empty()
    } else {
        table_map(entries.drop_last()).insert(entries.last().0@, entries.last().1)
    }
}

/// The process-name map of this crate.
pub open spec fn app_map_spec() -> Map<Seq<char>, &'static str> {
    table_map(APP_TABLE@)
}

/// Builds the map from helper process names to application names.
pub fn process_app_map() -> (m: StringHashMap<&'static str>)
    ensures
        m@ == app_map_spec(),
{
    let mut m: StringHashMap<&'static str> = StringHashMap::with_capacity(APP_TABLE_LEN);
    let mut i: usize = 0;
    proof {
        assert(APP_TABLE@.take(0) =~= Seq::<(&'static str, &'static str)>::empty());
    }
    while i < APP_TABLE_LEN
        invariant
            i <= APP_TABLE_LEN,
            APP_TABLE@.len() == APP_TABLE_LEN,
            m@ == table_map(APP_TABLE@.take(i as int)),
        decreases APP_TABLE_LEN - i,
    {
        let entry = APP_TABLE[i];
        m.insert(String::from_str(entry.0), entry.1);
        proof {
            assert(APP_TABLE@.take(i + 1).drop_last() =~= APP_TABLE@.take(i as int));
        }
        i = i + 1;
    }
    proof {
        assert(APP_TABLE@.take(APP_TABLE_LEN as int) =~= APP_TABLE@);
    }
    m
}

/// A process name is in the map built from a table exactly when some entry
/// of the table names it.
pub proof fn lemma_table_map_keys(entries: Seq<(&'static str, &'static str)>, name: Seq<char>)
    ensures
        table_map(entries).contains_key(name) <==> exists|i: int|
            0 <= i < entries.len() && (#[trigger] entries[i]).0@ == name,
    decreases entries.len(),
{
    if entries.len() > 0 {
        let prefix = entries.drop_last();
        lemma_table_map_keys(prefix, name);
        if exists|i: int| 0 <= i < entries.len() && (#[trigger] entries[i]).0@ == name {
            let i = choose|i: int| 0 <= i < entries.len() && (#[trigger] entries[i]).0@ == name;
            if i < entries.len() - 1 {
                assert(prefix[i] == entries[i]);
            }
        }
        if exists|i: int| 0 <= i < prefix.len() && (#[trigger] prefix[i]).0@ == name {
            let i = choose|i: int| 0 <= i < prefix.len() && (#[trigger] prefix[i]).0@ == name;
            assert(entries[i] == prefix[i]);
        }
    }
}

/// The value that the map built from a table gives a process name is the
/// application of an entry of the table for that name.
pub proof fn lemma_table_map_value(entries: Seq<(&'static str, &'static str)>, name: Seq<char>)
    requires
        table_map(entries).contains_key(name),
    ensures
        exists|i: int|
            0 <= i < entries.len() && (#[trigger] entries[i]).0@ == name && table_map(entries)[name]
                == entries[i].1,
    decreases entries.len(),
{
    let last = entries.len() - 1;
    if entries[last].0@ == name {
        assert(entries.last() == entries[last]);
    } else {
        let prefix = entries.drop_last();
        lemma_table_map_value(prefix, name);
        let i = choose|i: int|
            0 <= i < prefix.len() && (#[trigger] prefix[i]).0@ == name && table_map(prefix)[name]
                == prefix[i].1;
        assert(entries[i] == prefix[i]);
    }
}

/// Normalising a process name twice is the same as once: where the
/// application that the map gives a process is itself a process name in
/// the map, the map gives that name back.
pub proof fn lemma_app_map_idempotent(process: Seq<char>)
    requires
        app_map_spec().contains_key(process),
        app_map_spec().contains_key(app_map_spec()[process]@),
    ensures
        app_map_spec()[app_map_spec()[process]@]@ == app_map_spec()[process]@,
{
    let app = app_map_spec()[process]@;
    lemma_table_map_value(APP_TABLE@, process);
    lemma_table_map_value(APP_TABLE@, app);
    lemma_app_names_canonical();
    let i = choose|i: int|
        0 <= i < APP_TABLE@.len() && (#[trigger] APP_TABLE@[i]).0@ == process && table_map(
            APP_TABLE@,
        )[process] == APP_TABLE@[i].1;
    let j = choose|j: int|
        0 <= j < APP_TABLE@.len() && (#[trigger] APP_TABLE@[j]).0@ == app && table_map(
            APP_TABLE@,
        )[app] == APP_TABLE@[j].1;
    assert(APP_TABLE@[j].0@ == APP_TABLE@[i].1@);
}

/// An entry whose process name is its application name is looked up as
/// itself.
proof fn lemma_self_entry(i: int)
    requires
        0 <= i < APP_TABLE_LEN,
        APP_TABLE@[i].0@ == APP_TABLE@[i].1@,
    ensures
        app_map_spec().contains_key(APP_TABLE@[i].1@),
        app_map_spec()[APP_TABLE@[i].1@]@ == APP_TABLE@[i].1@,
{
    let name = APP_TABLE@[i].1@;
    lemma_table_map_keys(APP_TABLE@, name);
    lemma_table_map_value(APP_TABLE@, name);
    lemma_app_names_canonical();
    let j = choose|j: int|
        0 <= j < APP_TABLE@.len() && (#[trigger] APP_TABLE@[j]).0@ == name && table_map(
            APP_TABLE@,
        )[name] == APP_TABLE@[j].1;
    assert(APP_TABLE@[j].0@ == APP_TABLE@[i].1@);
}

/// The application names that the map also knows as process names are
/// exactly iTerm2, WindowServer, kernel_task, launchd and Simulator, and
/// each of them is looked up as itself.
pub proof fn lemma_self_named_apps(name: Seq<char>)
    ensures
        ((exists|k: Seq<char>| app_map_spec().contains_key(k) && #[trigger] app_map_spec()[k]@ == name)
            && app_map_spec().contains_key(name)) <==> named_like_its_process(name),
        named_like_its_process(name) ==> app_map_spec().contains_key(name) && app_map_spec()[name]@
            == name,
{
    lemma_app_names_canonical();
    if name == "iTerm2"@ {
        assert(APP_TABLE@[142].0@ == name && APP_TABLE@[142].1@ == name);
        lemma_self_entry(142);
    }
    if name == "WindowServer"@ {
        assert(APP_TABLE@[166].0@ == name && APP_TABLE@[166].1@ == name);
        lemma_self_entry(166);
    }
    if name == "kernel_task"@ {
        assert(APP_TABLE@[167].0@ == name && APP_TABLE@[167].1@ == name);
        lemma_self_entry(167);
    }
    if name == "launchd"@ {
        assert(APP_TABLE@[168].0@ == name && APP_TABLE@[168].1@ == name);
        lemma_self_entry(168);
    }
    if name == "Simulator"@ {
        assert(APP_TABLE@[174].0@ == name && APP_TABLE@[174].1@ == name);
        lemma_self_entry(174);
    }
    if exists|k: Seq<char>| app_map_spec().contains_key(k) && #[trigger] app_map_spec()[k]@ == name {
        if app_map_spec().contains_key(name) {
            let k = choose|k: Seq<char>| app_map_spec().contains_key(k) && #[trigger] app_map_spec()[k]@ == name;
            lemma_table_map_value(APP_TABLE@, k);
            lemma_table_map_keys(APP_TABLE@, name);
            let i = choose|i: int|
                0 <= i < APP_TABLE@.len() && (#[trigger] APP_TABLE@[i]).0@ == k && table_map(
                    APP_TABLE@,
                )[k] == APP_TABLE@[i].1;
            let j = choose|j: int| 0 <= j < APP_TABLE@.len() && (#[trigger] APP_TABLE@[j]).0@ == name;
            assert(APP_TABLE@[j].0@ == APP_TABLE@[i].1@);
        }
    }
}

/// Looking up the process name of a table entry that no later entry names
/// again gives that entry's application.
pub proof fn lemma_table_map_lookup(entries: Seq<(&'static str, &'static str)>, i: int)
    requires
        0 <= i < entries.len(),
        forall|j: int| i < j < entries.len() ==> (#[trigger] entries[j]).0@ != entries[i].0@,
    ensures
        table_map(entries).contains_key(entries[i].0@),
        table_map(entries)[entries[i].0@] == entries[i].1,
    decreases entries.len(),
{
    if i < entries.len() - 1 {
        let prefix = entries.drop_last();
        assert(prefix[i] == entries[i]);
        assert forall|j: int| i < j < prefix.len() implies (#[trigger] prefix[j]).0@ != prefix[i].0@ by {
            assert(prefix[j] == entries[j]);
        }
        lemma_table_map_lookup(prefix, i);
        assert(entries.last() == entries[entries.len() - 1]);
    }
}

/// The last `.`-separated part of a name (the whole name when it has no `.`).
pub open spec fn last_segment(name: Seq<char>) -> Seq<char> {
    split_on(name, '.').last()
}

/// The application that a process of the coalition `coalition` is counted
/// under: the map's entry for the process when it has one, else the last
/// `.`-separated part of the coalition's name.
pub open spec fn resolved_app_name(
    map: Map<Seq<char>, &'static str>,
    coalition: Seq<char>,
    process: Seq<char>,
) -> Seq<char> {
    if map.contains_key(process) {
        map[process]@
    } else {
        last_segment(coalition)
    }
}

/// A process that the map does not know is counted under the last part of
/// its coalition's name: an end of that name that holds no `.`, and the whole
/// name when it holds no `.`. A process that the map knows is counted under
/// the map's application whatever its coalition.
pub proof fn lemma_app_name_fallback(
    map: Map<Seq<char>, &'static str>,
    coalition: Seq<char>,
    process: Seq<char>,
)
    ensures
        map.contains_key(process) ==> resolved_app_name(map, coalition, process) == map[process]@,
        !map.contains_key(process) ==> {
            let name = resolved_app_name(map, coalition, process);
            &&& name.len() <= coalition.len()
            &&& coalition.subrange(coalition.len() - name.len(), coalition.len() as int) == name
            &&& forall|i: int| 0 <= i < name.len() ==> #[trigger] name[i] != '.'
            &&& (forall|i: int| 0 <= i < coalition.len() ==> #[trigger] coalition[i] != '.')
                ==> name == coalition
        },
{
    crate::text::lemma_split_last(coalition, '.');
}

/// The category of a coalition: `system` for Apple's own bundles, `browser`
/// for the major web browsers, none otherwise.
pub open spec fn coalition_category(name: Seq<char>) -> Option<Seq<char>> {
    if starts_with(name, "com.apple."@) {
        Some("system"@)
    } else if contains(name, "Safari"@) || contains(name, "Chrome"@) || contains(name, "Firefox"@) {
        Some("browser"@)
    } else {
        None
    }
}

/// The last `.`-separated part of `name`.
pub fn last_dot_segment(name: &str) -> (r: String)
    ensures
        r@ == last_segment(name@),
{
    let chars = chars_of(name);
    let ranges = split_ranges(&chars, '.');
    proof {
        crate::text::lemma_split_nonempty(name@, '.');
    }
    let last = ranges[ranges.len() - 1];
    let piece = name.substring_char(last.0, last.1);
    String::from_str(piece)
}

/// The category of the coalition named `name`.
pub fn category_for_coalition(name: &str) -> (r: Option<String>)
    ensures
        r.deep_view() == coalition_category(name@),
{
    let chars = chars_of(name);
    if starts_with_exec(&chars, &chars_of("com.apple.")) {
        return Some(String::from_str("system"));
    }
    if contains_exec(&chars, &chars_of("Safari")) || contains_exec(&chars, &chars_of("Chrome"))
        || contains_exec(&chars, &chars_of("Firefox")) {
        return Some(String::from_str("browser"));
    }
    None
}

/// The application name under which the process `process` of the coalition
/// `coalition` is recorded.
pub fn app_name_for(map: &StringHashMap<&'static str>, coalition: &str, process: &str) -> (r:
    String)
    ensures
        r@ == resolved_app_name(map@, coalition@, process@),
{
    match map.get(process) {
        Some(app) => String::from_str(*app),
        None => last_dot_segment(coalition),
    }
}

// ---------------------------------------------------------------------------
// Labelling the processes of a sample
// ---------------------------------------------------------------------------

/// A process as a sample reports it: its id and its name.
pub struct TaskInfo {
    pub pid: i32,
    pub name: String,
}

/// A coalition as a sample reports it: its (bundle) name and its processes.
pub struct CoalitionInfo {
    pub name: String,
    pub tasks: Vec<TaskInfo>,
}

/// What a stored sample says of the process it measures, apart from the
/// measurements themselves.
pub struct SampleLabel {
    pub pid: i32,
    pub app_name: String,
    pub category: Option<String>,
}

/// `label` is the label of the process `task` of the coalition `coalition`.
pub open spec fn label_matches(
    map: Map<Seq<char>, &'static str>,
    coalition: CoalitionInfo,
    task: TaskInfo,
    label: SampleLabel,
) -> bool {
    &&& label.pid == task.pid
    &&& label.app_name@ == resolved_app_name(map, coalition.name@, task.name@)
    &&& label.category.deep_view() == coalition_category(coalition.name@)
}

/// How many processes the first `n` coalitions hold together.
pub open spec fn tasks_before(coalitions: Seq<CoalitionInfo>, n: int) -> int
    decreases n,
{
    if n <= 0 {
        0
    } else {
        tasks_before(coalitions, n - 1) + coalitions[n - 1].tasks@.len()
    }
}

/// Labels every process of every coalition, coalition by coalition and, in
/// each, in the order of its processes.
pub fn label_tasks(map: &StringHashMap<&'static str>, coalitions: &Vec<CoalitionInfo>) -> (r: Vec<
    SampleLabel,
>)
    ensures
        r.len() == tasks_before(coalitions@, coalitions.len() as int),
        forall|i: int, j: int|
            0 <= i < coalitions.len() && 0 <= j < coalitions@[i].tasks@.len() ==> label_matches(
                map@,
                coalitions@[i],
                coalitions@[i].tasks@[j],
                #[trigger] r@[tasks_before(coalitions@, i) + j],
            ),
{
    let mut r: Vec<SampleLabel> = Vec::new();
    let mut i: usize = 0;
    while i < coalitions.len()
        invariant
            i <= coalitions.len(),
            r.len() == tasks_before(coalitions@, i as int),
            forall|a: int, b: int|
                0 <= a < i && 0 <= b < coalitions@[a].tasks@.len() ==> label_matches(
                    map@,
                    coalitions@[a],
                    coalitions@[a].tasks@[b],
                    #[trigger] r@[tasks_before(coalitions@, a) + b],
                ),
        decreases coalitions.len() - i,
    {
        let coal = &coalitions[i];
        let category = category_for_coalition(coal.name.as_str());
        let ghost base = r.len() as int;
        let mut j: usize = 0;
        while j < coal.tasks.len()
            invariant
                i < coalitions.len(),
                *coal == coalitions@[i as int],
                base == tasks_before(coalitions@, i as int),
                0 <= base,
                j <= coal.tasks.len(),
                r.len() == base + j,
                category.deep_view() == coalition_category(coal.name@),
                forall|a: int, b: int|
                    0 <= a < i && 0 <= b < coalitions@[a].tasks@.len() ==> label_matches(
                        map@,
                        coalitions@[a],
                        coalitions@[a].tasks@[b],
                        #[trigger] r@[tasks_before(coalitions@, a) + b],
                    ),
                forall|b: int|
                    0 <= b < j ==> label_matches(
                        map@,
                        *coal,
                        coal.tasks@[b],
                        #[trigger] r@[base + b],
                    ),
            decreases coal.tasks.len() - j,
        {
            let task = &coal.tasks[j];
            let app_name = app_name_for(map, coal.name.as_str(), task.name.as_str());
            let cat = match &category {
                Some(c) => Some(c.clone()),
                None => None,
            };
            let ghost prev = r@;
            r.push(SampleLabel { pid: task.pid, app_name, category: cat });
            proof {
                assert(label_matches(map@, *coal, coal.tasks@[j as int], r@[base + j]));
                assert forall|b: int| 0 <= b < j + 1 implies label_matches(
                    map@,
                    *coal,
                    coal.tasks@[b],
                    #[trigger] r@[base + b],
                ) by {
                    if b < j {
                        assert(r@[base + b] == prev[base + b]);
                    }
                }
                assert forall|a: int, b: int|
                    0 <= a < i && 0 <= b < coalitions@[a].tasks@.len() implies label_matches(
                        map@,
                        coalitions@[a],
                        coalitions@[a].tasks@[b],
                        #[trigger] r@[tasks_before(coalitions@, a) + b],
                    ) by {
                    lemma_tasks_before_grows(coalitions@, a + 1, i as int);
                    lemma_tasks_before_grows(coalitions@, 0, a);
                    assert(r@[tasks_before(coalitions@, a) + b] == prev[tasks_before(coalitions@, a)
                        + b]);
                }
            }
            j = j + 1;
        }
        i = i + 1;
    }
    r
}

/// The process count before the `m`-th coalition is at least that before the
/// `n`-th, for `n <= m`.
proof fn lemma_tasks_before_grows(coalitions: Seq<CoalitionInfo>, n: int, m: int)
    requires
        0 <= n <= m <= coalitions.len(),
    ensures
        tasks_before(coalitions, n) <= tasks_before(coalitions, m),
    decreases m - n,
{
    if n < m {
        lemma_tasks_before_grows(coalitions, n, m - 1);
    }
}

// ---------------------------------------------------------------------------
// One sample of the sampler's output
// ---------------------------------------------------------------------------

/// The bytes of one sample without the NUL byte that ends it in the stream.
pub open spec fn payload_of(buf: Seq<u8>) -> Seq<u8> {
    if buf.len() > 0 && buf.last() == 0 {
        buf.drop_last()
    } else {
        buf
    }
}

/// A sample written to the stream with its terminating NUL byte is read
/// back exactly.
pub proof fn lemma_payload_of_terminated(bytes: Seq<u8>)
    ensures
        payload_of(bytes.push(0)) == bytes,
{
    assert(bytes.push(0).drop_last() =~= bytes);
}

/// Drops one trailing NUL byte from `buf`, if it ends in one.
pub fn strip_nul_terminator(buf: &[u8]) -> (r: &[u8])
    ensures
        r@ == payload_of(buf@),
{
    let n = buf.len();
    if n > 0 && buf[n - 1] == 0 {
        let r = vstd::slice::slice_subrange(buf, 0, n - 1);
        assert(r@ =~= buf@.drop_last());
        r
    } else {
        buf
    }
}

/// The time at which a sample was taken, read from its RFC 3339 `timestamp`
/// field; none where the field is not a valid date-time.
pub fn sample_timestamp(text: &str) -> (r: Option<Timestamp>)
    ensures
        timestamp_matches(r, rfc3339_instant(text@)),
{
    Timestamp::from_rfc3339(text)
}

// ---------------------------------------------------------------------------
// Running the sampler
// ---------------------------------------------------------------------------

/// The program that is run to start the sampler.
pub const POWERMETRICS_PROGRAM: &'static str = "sudo";

/// The arguments given to [`POWERMETRICS_PROGRAM`]: the sampler with every
/// per-process report switched on, plist output, and the sampling interval.
pub open spec fn powermetrics_args_spec(interval_ms: u64) -> Seq<Seq<char>> {
    seq![
        "powermetrics"@,
        "--samplers"@,
        "default"@,
        "--show-process-gpu"@,
        "--show-process-netstats"@,
        "--show-process-energy"@,
        "--show-process-coalition"@,
        "--format"@,
        "plist"@,
        "-i"@,
        decimal(interval_ms as nat),
    ]
}

/// The command-line arguments that start the sampler with a sampling
/// interval of `interval_ms` milliseconds.
pub fn powermetrics_args(interval_ms: u64) -> (r: Vec<String>)
    ensures
        r.len() == powermetrics_args_spec(interval_ms).len(),
        forall|k: int| 0 <= k < r.len() ==> (#[trigger] r@[k])@ == powermetrics_args_spec(
            interval_ms,
        )[k],
{
    let mut r: Vec<String> = Vec::new();
    r.push(String::from_str("powermetrics"));
    r.push(String::from_str("--samplers"));
    r.push(String::from_str("default"));
    r.push(String::from_str("--show-process-gpu"));
    r.push(String::from_str("--show-process-netstats"));
    r.push(String::from_str("--show-process-energy"));
    r.push(String::from_str("--show-process-coalition"));
    r.push(String::from_str("--format"));
    r.push(String::from_str("plist"));
    r.push(String::from_str("-i"));
    r.push(format_u64(interval_ms));
    r
}

/// What the sampling loop learns each time one of its waits ends.
pub enum MetricsEvent {
    /// The shutdown flag changed; it now reads `shutting_down`.
    ShutdownChanged { shutting_down: bool },
    /// The requested sampling interval changed and has settled at
    /// `interval_ms`.
    IntervalSettled { interval_ms: u64 },
    /// A read from the sampler's output up to the next NUL byte returned
    /// `bytes` bytes; zero bytes means the stream has closed.
    ReadDone { bytes: usize },
    /// A read from the sampler's output failed.
    ReadFailed,
    /// The bytes read so far did not parse as a sample.
    ParseFailed,
    /// A parsed sample gave `converted` samples, of which the first `sent`
    /// were handed on before the receiving side went away.
    BatchSent { converted: usize, sent: usize },
}

/// What the sampling loop does next.
#[derive(PartialEq, Eq, Structural, Debug, Clone, Copy)]
pub enum MetricsAction {
    /// Wait for the next event.
    Continue,
    /// Stop the running sampler, start it again with the given interval and
    /// empty the read buffer.
    Restart { interval_ms: u64 },
    /// Parse the bytes read so far as one sample.
    ParseBuffer,
    /// Empty the read buffer and wait for the next event.
    DiscardBuffer,
    /// Stop the sampler and end normally.
    Stop,
    /// End with the read error.
    Fail,
}

/// The state of the loop that runs the sampler for one monitoring session.
pub struct PowermetricsLoop {
    /// The session that the samples belong to.
    pub session_id: i64,
    /// The interval, in milliseconds, that the running sampler was started with.
    pub current_interval: u64,
    /// How many samples have been handed on so far.
    pub sample_count: u64,
}

/// The action that the loop in state `s` takes on `event`.
pub open spec fn metrics_action(s: PowermetricsLoop, event: MetricsEvent) -> MetricsAction {
    match event {
        MetricsEvent::ShutdownChanged { shutting_down } => if shutting_down {
            MetricsAction::Stop
        } else {
            MetricsAction::Continue
        },
        MetricsEvent::IntervalSettled { interval_ms } => if interval_ms != s.current_interval {
            MetricsAction::Restart { interval_ms }
        } else {
            MetricsAction::Continue
        },
        MetricsEvent::ReadDone { bytes } => if bytes == 0 {
            MetricsAction::Stop
        } else {
            MetricsAction::ParseBuffer
        },
        MetricsEvent::ReadFailed => MetricsAction::Fail,
        MetricsEvent::ParseFailed => MetricsAction::DiscardBuffer,
        MetricsEvent::BatchSent { converted, sent } => if sent < converted {
            MetricsAction::Stop
        } else {
            MetricsAction::Continue
        },
    }
}

/// The state of the loop after it handled `event` in state `s`.
pub open spec fn metrics_next(s: PowermetricsLoop, event: MetricsEvent) -> PowermetricsLoop {
    match event {
        MetricsEvent::IntervalSettled { interval_ms } => PowermetricsLoop {
            current_interval: interval_ms,
            ..s
        },
        MetricsEvent::BatchSent { converted, sent } => if sent < converted {
            s
        } else {
            PowermetricsLoop { sample_count: (s.sample_count + converted) as u64, ..s }
        },
        _ => s,
    }
}

/// `event` can be handled in state `s`: a batch never reports more samples
/// handed on than it held, and the count of samples handed on stays within
/// 64 bits.
pub open spec fn metrics_event_ok(s: PowermetricsLoop, event: MetricsEvent) -> bool {
    match event {
        MetricsEvent::BatchSent { converted, sent } => sent <= converted && (sent == converted
            ==> s.sample_count + converted <= u64::MAX),
        _ => true,
    }
}

impl PowermetricsLoop {
    /// The loop of session `session_id` whose sampler was started with an
    /// interval of `interval_ms` milliseconds, before any sample.
    pub fn new(session_id: i64, interval_ms: u64) -> (r: PowermetricsLoop)
        ensures
            r.session_id == session_id,
            r.current_interval == interval_ms,
            r.sample_count == 0,
    {
        PowermetricsLoop { session_id, current_interval: interval_ms, sample_count: 0 }
    }

    /// Handles one event and says what to do next.
    pub fn step(&mut self, event: MetricsEvent) -> (a: MetricsAction)
        requires
            metrics_event_ok(*old(self), event),
        ensures
            a == metrics_action(*old(self), event),
            *final(self) == metrics_next(*old(self), event),
    {
        match event {
            MetricsEvent::ShutdownChanged { shutting_down } => if shutting_down {
                MetricsAction::Stop
            } else {
                MetricsAction::Continue
            },
            MetricsEvent::IntervalSettled { interval_ms } => {
                if interval_ms != self.current_interval {
                    self.current_interval = interval_ms;
                    MetricsAction::Restart { interval_ms }
                } else {
                    MetricsAction::Continue
                }
            },
            MetricsEvent::ReadDone { bytes } => if bytes == 0 {
                MetricsAction::Stop
            } else {
                MetricsAction::ParseBuffer
            },
            MetricsEvent::ReadFailed => MetricsAction::Fail,
            MetricsEvent::ParseFailed => MetricsAction::DiscardBuffer,
            MetricsEvent::BatchSent { converted, sent } => {
                if sent < converted {
                    MetricsAction::Stop
                } else {
                    self.sample_count = self.sample_count + converted as u64;
                    MetricsAction::Continue
                }
            },
        }
    }
}

/// Handling an event never lowers the count of samples handed on, never
/// changes the session, and leaves the sampler's interval as it was unless
/// the loop restarts the sampler, which it does with exactly the new
/// interval and only when that differs from the old one.
pub proof fn lemma_metrics_step(s: PowermetricsLoop, event: MetricsEvent)
    requires
        metrics_event_ok(s, event),
    ensures
        metrics_next(s, event).sample_count >= s.sample_count,
        metrics_next(s, event).session_id == s.session_id,
        metrics_action(s, event) matches MetricsAction::Restart { interval_ms } ==> (interval_ms
            != s.current_interval && metrics_next(s, event).current_interval == interval_ms),
        !(metrics_action(s, event) is Restart) ==> metrics_next(s, event).current_interval
            == s.current_interval,
{
}

/// A settled interval that differs from the running sampler's, shorter or
/// longer, always restarts the sampler with exactly that interval, which
/// becomes the current one; the same interval leaves everything as it is.
pub proof fn lemma_interval_change_restarts(s: PowermetricsLoop, interval_ms: u64)
    ensures
        interval_ms != s.current_interval ==> metrics_action(
            s,
            MetricsEvent::IntervalSettled { interval_ms },
        ) == (MetricsAction::Restart { interval_ms }) && metrics_next(
            s,
            MetricsEvent::IntervalSettled { interval_ms },
        ).current_interval == interval_ms,
        interval_ms < s.current_interval ==> metrics_action(
            s,
            MetricsEvent::IntervalSettled { interval_ms },
        ) == (MetricsAction::Restart { interval_ms }),
        interval_ms == s.current_interval ==> metrics_action(
            s,
            MetricsEvent::IntervalSettled { interval_ms },
        ) == MetricsAction::Continue && metrics_next(
            s,
            MetricsEvent::IntervalSettled { interval_ms },
        ) == s,
{
}

/// A batch whose samples were all handed on adds exactly their number to the
/// count and lets the loop go on; a batch cut short stops the loop and adds
/// nothing.
pub proof fn lemma_batch_counts(s: PowermetricsLoop, converted: usize, sent: usize)
    requires
        metrics_event_ok(s, MetricsEvent::BatchSent { converted, sent }),
    ensures
        sent == converted ==> metrics_next(s, MetricsEvent::BatchSent { converted, sent }).sample_count
            == s.sample_count + converted && metrics_action(
            s,
            MetricsEvent::BatchSent { converted, sent },
        ) == MetricsAction::Continue,
        sent < converted ==> metrics_next(s, MetricsEvent::BatchSent { converted, sent }) == s
            && metrics_action(s, MetricsEvent::BatchSent { converted, sent }) == MetricsAction::Stop,
{
}

/// The sampler is started with the interval asked for: the argument after
/// `-i` reads back as exactly that number of milliseconds, for every
/// interval.
pub proof fn lemma_interval_argument_round_trips(interval_ms: u64)
    ensures
        powermetrics_args_spec(interval_ms).len() == 11,
        powermetrics_args_spec(interval_ms)[9] == "-i"@,
        crate::text::parse_u64_spec(powermetrics_args_spec(interval_ms)[10]) == Some(interval_ms),
{
    crate::text::lemma_parse_decimal(interval_ms);
}

/// A coalition whose name does not begin with `com.apple.` and holds
/// `Safari`, `Chrome` or `Firefox` anywhere in it (before, inside or after
/// its last `.`) is a browser; one that begins with `com.apple.` is the
/// system's, whatever else it holds.
pub proof fn lemma_browser_anywhere(prefix: Seq<char>, browser: Seq<char>, suffix: Seq<char>)
    requires
        browser == "Safari"@ || browser == "Chrome"@ || browser == "Firefox"@,
    ensures
        !starts_with(prefix + browser + suffix, "com.apple."@) ==> coalition_category(
            prefix + browser + suffix,
        ) == Some("browser"@),
        starts_with(prefix + browser + suffix, "com.apple."@) ==> coalition_category(
            prefix + browser + suffix,
        ) == Some("system"@),
{
    let name = prefix + browser + suffix;
    assert(name.subrange(prefix.len() as int, (prefix.len() + browser.len()) as int) =~= browser);
    assert(crate::text::occurs_at(name, browser, prefix.len() as int));
}

/// A coalition is a browser exactly when its name does not begin with
/// `com.apple.` and holds one of the browser names somewhere; it is the
/// system's exactly when its name begins with `com.apple.`.
pub proof fn lemma_category_cases(name: Seq<char>)
    ensures
        coalition_category(name) == Some("system"@) <==> starts_with(name, "com.apple."@),
        (coalition_category(name) == Some("browser"@)) <==> (!starts_with(name, "com.apple."@) && (
        contains(name, "Safari"@) || contains(name, "Chrome"@) || contains(name, "Firefox"@))),
        coalition_category(name) is None <==> (!starts_with(name, "com.apple."@) && !contains(
            name,
            "Safari"@,
        ) && !contains(name, "Chrome"@) && !contains(name, "Firefox"@)),
{
    reveal_strlit("system");
    reveal_strlit("browser");
    assert("system"@[0] != "browser"@[0]);
}

} // verus!
