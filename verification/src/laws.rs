//! Properties of the bridge that span several of its operations.

use vstd::prelude::*;
use crate::bridge::{HeartbeatCall, heartbeat_interval, heartbeat_run, monitor_starts, timer_after_record, workbook_file_of};
use crate::events::{BUSY_RETRY_MS, POLL_INTERVAL_MS, observed_sleep, CellObservation, ExcelEvent, EVENT_QUEUE_CAPACITY, cell_change_name, observed_event, observed_state, queue_after_push};
use crate::json::{JsonValue, entries_lookup, field_of, str_of, u64_of};
use crate::proxy::{ProxyAction, ReplyValue, invocation_args, keeps_registered, reply_value_of, request_action, request_args, request_member, request_obj_id, request_value};
use crate::variant::VariantValue;
use crate::script::{USER_SCRIPT_HEAD, USER_SCRIPT_TAIL, json_quoted, json_string_value, lemma_json_quoted_reads_back, user_script_text};
use crate::utf16::{lemma_utf16_round_trip, utf16_lossy, utf16_of};
use crate::variant::variant_of_json;

verus! {

/// The event queue never holds more than its capacity: pushing onto a queue
/// within capacity leaves it within capacity.
pub proof fn lemma_queue_stays_bounded(q: Seq<ExcelEvent>, e: ExcelEvent)
    requires
        q.len() <= EVENT_QUEUE_CAPACITY,
    ensures
        queue_after_push(q, e).len() <= EVENT_QUEUE_CAPACITY,
{
}

/// Below capacity, pushing appends: every queued event stays, in order, and
/// the new one comes last.
pub proof fn lemma_queue_push_below_capacity(q: Seq<ExcelEvent>, e: ExcelEvent)
    requires
        q.len() < EVENT_QUEUE_CAPACITY,
    ensures
        queue_after_push(q, e) == q.push(e),
{
}

/// At capacity, pushing drops the oldest event and appends the new one.
pub proof fn lemma_queue_push_at_capacity(q: Seq<ExcelEvent>, e: ExcelEvent)
    requires
        q.len() == EVENT_QUEUE_CAPACITY,
    ensures
        queue_after_push(q, e) == q.drop_first().push(e),
{
    assert(queue_after_push(q, e) =~= q.drop_first().push(e));
}

/// An event pushed onto an empty queue is the one the next poll takes, and
/// the queue is then empty again.
pub proof fn lemma_queue_push_then_poll(e: ExcelEvent)
    ensures
        queue_after_push(Seq::empty(), e).len() == 1,
        queue_after_push(Seq::empty(), e)[0] == e,
        queue_after_push(Seq::empty(), e).drop_first() == Seq::<ExcelEvent>::empty(),
{
    assert(queue_after_push(Seq::empty(), e) =~= seq![e]);
    assert(seq![e].drop_first() =~= Seq::<ExcelEvent>::empty());
}

/// The monitor reports each value once: observing the same thing again right
/// after reports nothing.
pub proof fn lemma_repeated_observation_is_silent(last_seen: Seq<char>, obs: CellObservation)
    ensures
        observed_event(observed_state(last_seen, obs), obs) is None,
{
}

/// A readable cell text that differs from the last one reported is reported
/// as a change event carrying that text, and becomes the last one reported.
pub proof fn lemma_new_text_is_reported(last_seen: Seq<char>, obs: CellObservation)
    requires
        obs matches CellObservation::CellText(t) && t@ != last_seen,
    ensures
        obs matches CellObservation::CellText(t) && observed_event(last_seen, obs) == Some((cell_change_name(), t@))
            && observed_state(last_seen, obs) == t@,
{
}

/// The cell monitor starts exactly once: the first request starts it, and
/// every request leaves it started, so no later request starts it again.
pub proof fn lemma_monitor_starts_once()
    ensures
        monitor_starts(false),
        !monitor_starts(true),
{
}

/// The heartbeat interval is never 0, and a non-zero request is kept.
pub proof fn lemma_heartbeat_interval(requested_ms: u32)
    ensures
        heartbeat_interval(requested_ms) > 0,
        requested_ms != 0 ==> heartbeat_interval(requested_ms) == requested_ms,
{
}

/// A running heartbeat timer is never replaced by a newly recorded one.
pub proof fn lemma_running_timer_kept(kept: usize, id: usize)
    requires
        kept != 0,
    ensures
        timer_after_record(kept, id) == kept,
{
}

/// Reading a workbook file after the directory was set gives back that
/// directory with the requested name.
pub proof fn lemma_workbook_file_after_set(dir: Seq<char>, file_name: Seq<char>)
    ensures
        workbook_file_of(Some(dir), file_name) == Ok::<(Seq<char>, Seq<char>), crate::error::BridgeError>((dir, file_name)),
{
}

/// Two objects registered one after the other get distinct ids, and each id
/// then looks up its own object.
pub proof fn lemma_two_registrations<H>(objects: Map<u32, H>, next: u32, first: H, second: H)
    requires
        next < u32::MAX,
    ensures
        next != (next + 1) as u32,
        objects.insert(next, first).insert((next + 1) as u32, second)[next] == first,
        objects.insert(next, first).insert((next + 1) as u32, second)[(next + 1) as u32] == second,
{
}

/// A scalar JSON value written to COM and read back is replied as the same
/// scalar: strings, booleans and null as they are, integers that fit in 32
/// bits as themselves, and other numbers as their double.
pub proof fn lemma_scalar_round_trip<H>(j: JsonValue)
    ensures
        j matches JsonValue::Str(s) ==> reply_value_of(variant_of_json::<H>(j), ReplyValue::Text(s)),
        j matches JsonValue::Bool(b) ==> reply_value_of(variant_of_json::<H>(j), ReplyValue::Bool(b)),
        j is Null ==> reply_value_of(variant_of_json::<H>(j), ReplyValue::Null),
        (j matches JsonValue::Number(n) && n.i64_reading() matches Some(i) && i32::MIN <= i <= i32::MAX)
            ==> (j matches JsonValue::Number(n) && n.i64_reading() matches Some(i)
                && reply_value_of(variant_of_json::<H>(j), ReplyValue::Int(i as i32)) && i as i32 == i),
        (j matches JsonValue::Number(n) && n.i64_reading() is None && n.f64_bits_reading() matches Some(bits))
            ==> (j matches JsonValue::Number(n) && n.f64_bits_reading() matches Some(bits)
                && reply_value_of(variant_of_json::<H>(j), ReplyValue::Real(bits))),
{
}

/// A method call passes every script argument, last one first.
pub proof fn lemma_call_arguments_reversed<H>(args: Seq<JsonValue>, value: JsonValue)
    ensures
        invocation_args::<H>(ProxyAction::Call, args, value).len() == args.len(),
        forall|k: int| 0 <= k < args.len() ==>
            #[trigger] invocation_args::<H>(ProxyAction::Call, args, value)[k] == variant_of_json::<H>(args[args.len() - 1 - k]),
{
}

/// Registered objects stay registered: keeping the registered objects
/// composes over successive calls.
pub proof fn lemma_keeps_registered_composes<H>(a: Map<u32, H>, b: Map<u32, H>, c: Map<u32, H>)
    requires
        keeps_registered(a, b),
        keeps_registered(b, c),
    ensures
        keeps_registered(a, c),
{
}

/// Along any run of registry states where each call keeps the registered
/// objects (as `register` and `variant_to_json` do, and lookups leave the
/// registry as it is), an id registered at the start still stands for the
/// same object in every later state.
pub proof fn lemma_registered_id_keeps_object<H>(states: Seq<Map<u32, H>>, id: u32)
    requires
        states.len() > 0,
        states[0].contains_key(id),
        forall|i: int| 0 <= i < states.len() - 1 ==> keeps_registered(#[trigger] states[i], states[i + 1]),
    ensures
        forall|j: int| #![trigger states[j]] 0 <= j < states.len() ==> states[j].contains_key(id) && states[j][id] == states[0][id],
{
    assert forall|j: int| #![trigger states[j]] 0 <= j < states.len() implies states[j].contains_key(id) && states[j][id] == states[0][id] by {
        lemma_registered_prefix(states, id, j);
    }
}

proof fn lemma_registered_prefix<H>(states: Seq<Map<u32, H>>, id: u32, j: int)
    requires
        0 <= j < states.len(),
        states[0].contains_key(id),
        forall|i: int| 0 <= i < states.len() - 1 ==> keeps_registered(#[trigger] states[i], states[i + 1]),
    ensures
        states[j].contains_key(id) && states[j][id] == states[0][id],
    decreases j,
{
    if j > 0 {
        lemma_registered_prefix(states, id, j - 1);
        assert(keeps_registered(states[j - 1], states[j]));
    }
}

proof fn lemma_heartbeat_balance(kept: usize, calls: Seq<HeartbeatCall>)
    requires
        forall|i: int| 0 <= i < calls.len() ==> (#[trigger] calls[i] matches HeartbeatCall::Start(id) ==> id != 0),
    ensures
        ({
            let (last, created, killed) = heartbeat_run(kept, calls);
            created + (if kept != 0 { 1int } else { 0int }) == killed + (if last != 0 { 1int } else { 0int })
        }),
    decreases calls.len(),
{
    if calls.len() > 0 {
        let rest = calls.drop_first();
        assert forall|i: int| 0 <= i < rest.len() implies (#[trigger] rest[i] matches HeartbeatCall::Start(id) ==> id != 0) by {
            assert(rest[i] == calls[i + 1]);
        }
        assert(calls[0] matches HeartbeatCall::Start(id) ==> id != 0);
        lemma_heartbeat_balance(crate::bridge::timer_after_call(kept, calls[0]), rest);
    }
}

/// Over any run of heartbeat starts and stops from no timer, where creating
/// a timer gives a non-zero id, the timers created minus the timers killed
/// is one while a timer id is kept and zero otherwise.
pub proof fn lemma_heartbeat_timer_count(calls: Seq<HeartbeatCall>)
    requires
        forall|i: int| 0 <= i < calls.len() ==> (#[trigger] calls[i] matches HeartbeatCall::Start(id) ==> id != 0),
    ensures
        ({
            let (last, created, killed) = heartbeat_run(0, calls);
            created == killed + (if last != 0 { 1nat } else { 0nat })
        }),
{
    lemma_heartbeat_balance(0, calls);
}

/// A start followed by a stop kills exactly the timer the start created and
/// leaves no timer.
pub proof fn lemma_heartbeat_start_then_stop(id: usize)
    requires
        id != 0,
    ensures
        heartbeat_run(0, seq![HeartbeatCall::Start(id), HeartbeatCall::Stop]) == (0usize, 1nat, 1nat),
        timer_after_record(0, id) == id,
{
    reveal_with_fuel(heartbeat_run, 3);
    assert(seq![HeartbeatCall::Start(id), HeartbeatCall::Stop].drop_first() =~= seq![HeartbeatCall::Stop]);
    assert(seq![HeartbeatCall::Stop].drop_first() =~= Seq::<HeartbeatCall>::empty());
}

/// The script for user code embeds the code as a JSON string literal that
/// a JSON reader reads back as exactly the code: the code cannot end the
/// literal early.
pub proof fn lemma_script_embeds_code(code: Seq<char>)
    ensures
        user_script_text(json_quoted(code)) == USER_SCRIPT_HEAD@ + json_quoted(code) + USER_SCRIPT_TAIL@,
        json_string_value(json_quoted(code)) == Some(code),
{
    lemma_json_quoted_reads_back(code);
}

/// Setting the workbook directory from a text and from the UTF-16 of that
/// text leave the same directory.
pub proof fn lemma_directory_setters_agree(dir: Seq<char>)
    ensures
        utf16_lossy(utf16_of(dir)) == dir,
{
    lemma_utf16_round_trip(dir);
}

/// A request whose `args` field is an array is decoded with exactly that
/// array as its arguments, whatever its length.
pub proof fn lemma_args_array_decoded_in_full(req: JsonValue, items: Vec<JsonValue>)
    requires
        field_of(req, "args"@) == Some(JsonValue::Array(items)),
    ensures
        request_args(req) == items@,
{
}

/// A request whose `action` is `"call"` is a method call, one whose action
/// is `"set"` is a property write.
pub proof fn lemma_action_names_decoded(req: JsonValue)
    ensures
        str_of(field_of(req, "action"@)) == Some("call"@) ==> request_action(req) == ProxyAction::Call,
        str_of(field_of(req, "action"@)) == Some("set"@) ==> request_action(req) == ProxyAction::Write,
        str_of(field_of(req, "action"@)) is None ==> request_action(req) == ProxyAction::Read,
{
    reveal_strlit("call");
    reveal_strlit("set");
    reveal_strlit("get");
    assert("call"@.len() == 4 && "set"@.len() == 3);
    assert("call"@ != "set"@);
    assert("get"@[0] == 'g' && "set"@[0] == 's' && "call"@[0] == 'c');
    assert("get"@ != "set"@);
    assert("get"@ != "call"@);
}

/// A method call whose request carries an `args` array passes one COM
/// argument for each element of that array, the last element first.
pub proof fn lemma_call_passes_args_array<H>(req: JsonValue, items: Vec<JsonValue>)
    requires
        field_of(req, "args"@) == Some(JsonValue::Array(items)),
        request_action(req) == ProxyAction::Call,
    ensures
        invocation_args::<H>(request_action(req), request_args(req), request_value(req)).len() == items@.len(),
        forall|k: int| 0 <= k < items@.len() ==>
            #[trigger] invocation_args::<H>(request_action(req), request_args(req), request_value(req))[k]
                == variant_of_json::<H>(items@[items@.len() - 1 - k]),
{
}

/// A request that has a `value` field writes exactly that value.
pub proof fn lemma_value_field_decoded(req: JsonValue, v: JsonValue)
    requires
        field_of(req, "value"@) == Some(v),
    ensures
        request_value(req) == v,
{
}

/// A property write passes its value converted exactly as a method call
/// passes a single argument.
pub proof fn lemma_write_converts_like_call<H>(args: Seq<JsonValue>, value: JsonValue)
    ensures
        invocation_args::<H>(ProxyAction::Write, args, value)
            == invocation_args::<H>(ProxyAction::Call, seq![value], JsonValue::Null),
        invocation_args::<H>(ProxyAction::Write, args, value).len() == 1,
{
    assert(invocation_args::<H>(ProxyAction::Call, seq![value], JsonValue::Null)
        =~= seq![variant_of_json::<H>(value)]);
}

/// Two replies agree: the same value, texts compared by their characters.
pub open spec fn same_reply(a: ReplyValue, b: ReplyValue) -> bool {
    match (a, b) {
        (ReplyValue::Text(x), ReplyValue::Text(y)) => x@ == y@,
        _ => a == b,
    }
}

/// Every non-object result has exactly one reply: any two replies that the
/// reply relation admits for it agree.
pub proof fn lemma_reply_is_unique<H>(v: VariantValue<H>, r1: ReplyValue, r2: ReplyValue)
    requires
        reply_value_of(v, r1),
        reply_value_of(v, r2),
    ensures
        same_reply(r1, r2),
{
}

/// A string result is replied as that very string (the empty string too,
/// never as null).
pub proof fn lemma_text_replied_as_itself<H>(s: String, r: ReplyValue)
    requires
        reply_value_of(VariantValue::<H>::Text(s), r),
    ensures
        r == ReplyValue::Text(s),
        r != ReplyValue::Null,
{
}

/// An observation that is not a cell text (Excel unreachable, the cell
/// unreadable) neither reports anything nor changes the text remembered.
pub proof fn lemma_non_text_observation_keeps_memory(last_seen: Seq<char>, obs: CellObservation)
    requires
        !(obs is CellText),
    ensures
        observed_state(last_seen, obs) == last_seen,
        observed_event(last_seen, obs) is None,
{
}

/// A cell text seen before an interruption (any observation that is not a
/// cell text) is not reported again when it is seen unchanged after it.
pub proof fn lemma_unchanged_cell_silent_after_interruption(last_seen: Seq<char>, t: String, between: CellObservation)
    requires
        !(between is CellText),
    ensures
        observed_event(
            observed_state(observed_state(last_seen, CellObservation::CellText(t)), between),
            CellObservation::CellText(t),
        ) is None,
{
}

proof fn lemma_lookup_first_match(entries: Seq<(String, JsonValue)>, key: Seq<char>, v: JsonValue)
    ensures
        entries_lookup(entries, key) == Some(v) <==> exists|i: int| 0 <= i < entries.len()
            && #[trigger] entries[i].0@ == key && entries[i].1 == v
            && forall|j: int| 0 <= j < i ==> #[trigger] entries[j].0@ != key,
    decreases entries.len(),
{
    if entries.len() > 0 {
        let rest = entries.drop_first();
        lemma_lookup_first_match(rest, key, v);
        if entries_lookup(entries, key) == Some(v) {
            if entries[0].0@ == key {
                assert(entries[0].0@ == key && entries[0].1 == v);
            } else {
                let i = choose|i: int| 0 <= i < rest.len() && #[trigger] rest[i].0@ == key && rest[i].1 == v
                    && forall|j: int| 0 <= j < i ==> #[trigger] rest[j].0@ != key;
                assert(entries[i + 1] == rest[i]);
                assert forall|j: int| 0 <= j < i + 1 implies #[trigger] entries[j].0@ != key by {
                    if j > 0 {
                        assert(entries[j] == rest[j - 1]);
                    }
                }
            }
        }
        if exists|i: int| 0 <= i < entries.len() && #[trigger] entries[i].0@ == key && entries[i].1 == v
            && forall|j: int| 0 <= j < i ==> #[trigger] entries[j].0@ != key {
            let i = choose|i: int| 0 <= i < entries.len() && #[trigger] entries[i].0@ == key && entries[i].1 == v
                && forall|j: int| 0 <= j < i ==> #[trigger] entries[j].0@ != key;
            if i > 0 {
                assert(entries[0].0@ != key);
                assert(rest[i - 1] == entries[i]);
                assert forall|j: int| 0 <= j < i - 1 implies #[trigger] rest[j].0@ != key by {
                    assert(rest[j] == entries[j + 1]);
                }
            }
        }
    }
}

/// The field of an object is the value of its first entry with that name:
/// a field is found with a value exactly when some entry has that name and
/// value and no earlier entry has the name.
pub proof fn lemma_field_is_first_entry(entries: Vec<(String, JsonValue)>, key: Seq<char>, v: JsonValue)
    ensures
        field_of(JsonValue::Object(entries), key) == Some(v) <==> exists|i: int| 0 <= i < entries@.len()
            && #[trigger] entries@[i].0@ == key && entries@[i].1 == v
            && forall|j: int| 0 <= j < i ==> #[trigger] entries@[j].0@ != key,
{
    lemma_lookup_first_match(entries@, key, v);
}

/// A value that is not an object has no fields.
pub proof fn lemma_non_object_has_no_field(v: JsonValue, key: Seq<char>)
    requires
        !(v is Object),
    ensures
        field_of(v, key) is None,
{
}

/// The object id and member of a request are its `id` and `member` fields
/// when they are an integer that fits in 32 bits and a string.
pub proof fn lemma_id_and_member_decoded(req: JsonValue)
    ensures
        u64_of(field_of(req, "id"@)) matches Some(n) ==> (n <= u32::MAX ==> request_obj_id(req) == n),
        u64_of(field_of(req, "id"@)) is None ==> request_obj_id(req) == 0,
        str_of(field_of(req, "member"@)) matches Some(m) ==> request_member(req) == m,
{
}

/// The monitor waits longer exactly when Excel could not be reached.
pub proof fn lemma_monitor_waits(obs: CellObservation)
    ensures
        obs is ExcelUnavailable ==> observed_sleep(obs) == 300,
        !(obs is ExcelUnavailable) ==> observed_sleep(obs) == 150,
{
}

} // verus!
