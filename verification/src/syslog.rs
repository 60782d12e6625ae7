//! Field handling of GARDENA's syslog (RFC 5424) log format: collecting the
//! fields of spans and events, and escaping names and values.

use std::collections::HashMap;
use std::hash::Hash;
use crate::text::{ascii_graphic, str_eq};
use vstd::prelude::*;

verus! {

/// Debug-formats values and stores them in a map under their field.
pub struct CollectingVisitor<'a, F> {
    pub fields: &'a mut HashMap<F, String>,
}

impl<'a, F: Eq + Hash> CollectingVisitor<'a, F> {
    /// A visitor that stores into `fields`.
    pub fn new(fields: &'a mut HashMap<F, String>) -> (v: Self)
        ensures
            *v.fields == *old(fields),
            *final(fields) == *final(v.fields),
    {
        Self { fields }
    }

    /// Store the formatted `value` of `field`, replacing an earlier one.
    pub fn record(&mut self, field: F, value: String)
        ensures
            vstd::std_specs::hash::obeys_key_model::<F>() ==> final(self).fields@ == old(
                self,
            ).fields@.insert(field, value),
    {
        self.fields.insert(field, value);
    }
}

/// The escaped form of one character in a PARAM-VALUE.
pub open spec fn escape_char(c: char) -> Seq<char> {
    if c == '\\' {
        seq!['\\', '\\']
    } else if c == '"' {
        seq!['\\', '"']
    } else if c == ']' {
        seq!['\\', ']']
    } else {
        seq![c]
    }
}

/// `val` escaped as PARAM-VALUE of RFC 5424: `\`, `"` and `]` get a
/// backslash in front.
pub open spec fn escape_val_spec(val: Seq<char>) -> Seq<char>
    decreases val.len(),
{
    if val.len() == 0 {
        Seq::empty()
    } else {
        escape_val_spec(val.drop_last()) + escape_char(val.last())
    }
}

/// Escape the `val` parameter according to PARAM-VALUE rule from RFC5424.
pub fn escape_val(val: &str) -> (r: String)
    ensures
        r@ == escape_val_spec(val@),
{
    let mut out = String::new();
    for c in it: val.chars()
        invariant
            it.seq() == val@,
            out@ == escape_val_spec(val@.take(it.index() as int)),
    {
        proof {
            assert(val@.take(it.index() + 1).drop_last() == val@.take(it.index() as int));
        }
        if c == '\\' {
            out.push('\\');
            out.push('\\');
        } else if c == '"' {
            out.push('\\');
            out.push('"');
        } else if c == ']' {
            out.push('\\');
            out.push(']');
        } else {
            out.push(c);
        }
    }
    proof {
        assert(val@.take(val@.len() as int) == val@);
    }
    out
}

/// A character allowed in PARAM-NAME and SD-ID of RFC 5424.
pub open spec fn valid_name_char(c: char) -> bool {
    ascii_graphic(c) && c != '=' && c != ' ' && c != ']' && c != '"'
}

/// The longest name that RFC 5424 allows.
pub const MAX_NAME_LEN: usize = 32;

/// `name` without the characters that RFC 5424 names can't hold.
pub open spec fn valid_chars(name: Seq<char>) -> Seq<char>
    decreases name.len(),
{
    if name.len() == 0 {
        Seq::empty()
    } else if valid_name_char(name.last()) {
        valid_chars(name.drop_last()).push(name.last())
    } else {
        valid_chars(name.drop_last())
    }
}

/// `name` with invalid characters removed, truncated to [MAX_NAME_LEN]
/// characters.
pub open spec fn remove_invalid_spec(name: Seq<char>) -> Seq<char> {
    let v = valid_chars(name);
    if v.len() <= MAX_NAME_LEN {
        v
    } else {
        v.take(MAX_NAME_LEN as int)
    }
}

proof fn lemma_valid_chars_prefix(name: Seq<char>, i: int, j: int)
    requires
        0 <= i <= j <= name.len(),
    ensures
        valid_chars(name.take(i)).len() <= valid_chars(name.take(j)).len(),
        valid_chars(name.take(j)).take(valid_chars(name.take(i)).len() as int) == valid_chars(
            name.take(i),
        ),
    decreases j - i,
{
    if i < j {
        lemma_valid_chars_prefix(name, i, j - 1);
        assert(name.take(j).drop_last() == name.take(j - 1));
    }
}

/// Remove invalid characters from `name`: used for values in PARAM-NAME
/// and SD-ID from RFC5424. Removes `'='`, `' '`, `']'`, `'"'` and
/// non-printable ASCII characters. The result is truncated to 32 characters.
pub fn remove_invalid(name: &str) -> (r: String)
    ensures
        r@ == remove_invalid_spec(name@),
{
    let mut out = String::new();
    let mut count: usize = 0;
    for c in it: name.chars()
        invariant
            it.seq() == name@,
            count <= MAX_NAME_LEN,
            count == out@.len(),
            out@ == remove_invalid_spec(name@.take(it.index() as int)),
    {
        proof {
            assert(name@.take(it.index() + 1).drop_last() == name@.take(it.index() as int));
            lemma_valid_chars_prefix(name@, it.index() as int, it.index() + 1);
        }
        if c.is_ascii_graphic() && c != '=' && c != ' ' && c != ']' && c != '"' && count < MAX_NAME_LEN {
            out.push(c);
            count += 1;
        }
    }
    proof {
        assert(name@.take(name@.len() as int) == name@);
    }
    out
}

/// Lexicographic order of character sequences, which is the order of `str`
/// (UTF-8 keeps the order of code points).
pub open spec fn seq_lt(a: Seq<char>, b: Seq<char>) -> bool
    decreases a.len(),
{
    if a.len() == 0 {
        b.len() > 0
    } else if b.len() == 0 {
        false
    } else if a[0] != b[0] {
        a[0] < b[0]
    } else {
        seq_lt(a.drop_first(), b.drop_first())
    }
}

/// The characters of `s`.
fn chars_of(s: &str) -> (r: Vec<char>)
    ensures
        r@ == s@,
{
    let mut r: Vec<char> = Vec::new();
    for c in it: s.chars()
        invariant
            it.seq() == s@,
            r@ == s@.take(it.index() as int),
    {
        r.push(c);
        proof {
            assert(r@ == s@.take(it.index() + 1));
        }
    }
    proof {
        assert(s@.take(s@.len() as int) == s@);
    }
    r
}

/// Whether `a` comes before `b` in the order of `str`.
pub fn str_lt(a: &str, b: &str) -> (r: bool)
    ensures
        r == seq_lt(a@, b@),
{
    let x = chars_of(a);
    let y = chars_of(b);
    let mut i: usize = 0;
    proof {
        assert(x@.skip(0) == x@);
        assert(y@.skip(0) == y@);
    }
    while i < x.len() && i < y.len()
        invariant
            x@ == a@,
            y@ == b@,
            i <= x@.len(),
            i <= y@.len(),
            x@.take(i as int) == y@.take(i as int),
            seq_lt(x@, y@) == seq_lt(x@.skip(i as int), y@.skip(i as int)),
        decreases x@.len() - i,
    {
        if x[i] != y[i] {
            let lt = x[i] < y[i];
            proof {
                assert(x@.skip(i as int)[0] == x@[i as int]);
                assert(y@.skip(i as int)[0] == y@[i as int]);
                assert(x@.skip(i as int).len() > 0);
                assert(y@.skip(i as int).len() > 0);
                assert(seq_lt(x@.skip(i as int), y@.skip(i as int)) == (x@[i as int] < y@[i as int]));
                assert(lt == (x@[i as int] < y@[i as int]));
            }
            return lt;
        }
        proof {
            assert(x@.skip(i as int).drop_first() == x@.skip(i + 1));
            assert(y@.skip(i as int).drop_first() == y@.skip(i + 1));
            assert(x@.take(i + 1) == x@.take(i as int).push(x@[i as int]));
            assert(y@.take(i + 1) == y@.take(i as int).push(y@[i as int]));
        }
        i += 1;
    }
    proof {
        assert(x@.skip(i as int).len() == x@.len() - i);
    }
    i < y.len()
}

/// A field of a log line: its name and formatted value.
pub type Field = (String, String);

/// The views of the fields `f`.
pub open spec fn field_views(f: Seq<Field>) -> Seq<(Seq<char>, Seq<char>)> {
    f.map_values(|p: Field| (p.0@, p.1@))
}

/// The names of `es` ascend strictly.
pub open spec fn names_ascending(es: Seq<(Seq<char>, Seq<char>)>) -> bool {
    forall|i: int, j: int| 0 <= i < j < es.len() ==> seq_lt(es[i].0, es[j].0)
}

/// The number of leading entries of `es` whose names come before `name`.
pub open spec fn lower_bound(es: Seq<(Seq<char>, Seq<char>)>, name: Seq<char>) -> int
    decreases es.len(),
{
    if es.len() == 0 || !seq_lt(es[0].0, name) {
        0
    } else {
        1 + lower_bound(es.drop_first(), name)
    }
}

/// `es` with `value` stored under `name`, replacing an earlier value, in
/// name order.
pub open spec fn spec_insert(es: Seq<(Seq<char>, Seq<char>)>, name: Seq<char>, value: Seq<char>) -> Seq<
    (Seq<char>, Seq<char>),
> {
    let i = lower_bound(es, name);
    if i < es.len() && es[i].0 == name {
        es.update(i, (name, value))
    } else {
        es.insert(i, (name, value))
    }
}

/// The entries `es` with the fields `fs` stored in order, later ones
/// replacing earlier ones of the same name.
pub open spec fn insert_all(es: Seq<(Seq<char>, Seq<char>)>, fs: Seq<(Seq<char>, Seq<char>)>) -> Seq<
    (Seq<char>, Seq<char>),
>
    decreases fs.len(),
{
    if fs.len() == 0 {
        es
    } else {
        spec_insert(insert_all(es, fs.drop_last()), fs.last().0, fs.last().1)
    }
}

/// Whether some entry of `es` is named `name`.
pub open spec fn has_field(es: Seq<(Seq<char>, Seq<char>)>, name: Seq<char>) -> bool {
    exists|i: int| 0 <= i < es.len() && es[i].0 == name
}

/// The value of the first entry of `es` named `name`.
pub open spec fn field_value(es: Seq<(Seq<char>, Seq<char>)>, name: Seq<char>) -> Seq<char>
    decreases es.len(),
{
    if es.len() == 0 {
        Seq::empty()
    } else if es[0].0 == name {
        es[0].1
    } else {
        field_value(es.drop_first(), name)
    }
}

/// `es` without the entries named `name`.
pub open spec fn without_field(es: Seq<(Seq<char>, Seq<char>)>, name: Seq<char>) -> Seq<
    (Seq<char>, Seq<char>),
>
    decreases es.len(),
{
    if es.len() == 0 {
        es
    } else if es.last().0 == name {
        without_field(es.drop_last(), name)
    } else {
        without_field(es.drop_last(), name).push(es.last())
    }
}

proof fn lemma_seq_lt_trans(a: Seq<char>, b: Seq<char>, c: Seq<char>)
    requires
        seq_lt(a, b),
        seq_lt(b, c),
    ensures
        seq_lt(a, c),
    decreases a.len(),
{
    if a.len() > 0 && b.len() > 0 && c.len() > 0 && a[0] == b[0] && b[0] == c[0] {
        lemma_seq_lt_trans(a.drop_first(), b.drop_first(), c.drop_first());
    }
}

proof fn lemma_seq_lt_total(a: Seq<char>, b: Seq<char>)
    ensures
        a == b || seq_lt(a, b) || seq_lt(b, a),
    decreases a.len(),
{
    if a.len() == 0 && b.len() == 0 {
        assert(a =~= b);
    } else if a.len() > 0 && b.len() > 0 && a[0] == b[0] {
        lemma_seq_lt_total(a.drop_first(), b.drop_first());
        if a.drop_first() == b.drop_first() {
            assert(a.drop_first().len() == b.drop_first().len());
            assert(a.len() == b.len());
            assert forall|k: int| 0 <= k < a.len() implies a[k] == b[k] by {
                if k > 0 {
                    assert(a[k] == a.drop_first()[k - 1]);
                    assert(b[k] == b.drop_first()[k - 1]);
                }
            }
            assert(a =~= b);
        }
    }
}

proof fn lemma_seq_lt_irrefl(a: Seq<char>)
    ensures
        !seq_lt(a, a),
    decreases a.len(),
{
    if a.len() > 0 {
        lemma_seq_lt_irrefl(a.drop_first());
    }
}

/// Store `value` under `name` in the fields `es`, kept in name order.
fn insert_field(es: &mut Vec<Field>, name: String, value: String)
    requires
        names_ascending(field_views(old(es)@)),
    ensures
        field_views(final(es)@) == spec_insert(field_views(old(es)@), name@, value@),
        names_ascending(field_views(final(es)@)),
{
    let ghost v = field_views(es@);
    let mut i: usize = 0;
    proof {
        assert(v.skip(0) == v);
    }
    while i < es.len() && str_lt(es[i].0.as_str(), name.as_str())
        invariant
            v == field_views(es@),
            names_ascending(v),
            i <= v.len(),
            forall|j: int| 0 <= j < i ==> seq_lt(#[trigger] v[j].0, name@),
            lower_bound(v, name@) == i + lower_bound(v.skip(i as int), name@),
        decreases v.len() - i,
    {
        proof {
            assert(v.skip(i as int)[0] == v[i as int]);
            assert(v.skip(i as int).drop_first() == v.skip(i + 1));
        }
        i += 1;
    }
    proof {
        if i < v.len() {
            assert(v.skip(i as int)[0] == v[i as int]);
        }
        assert(lower_bound(v.skip(i as int), name@) == 0);
    }
    if i < es.len() && es[i].0 == name {
        let ghost before = es@;
        es.set(i, (name, value));
        proof {
            assert(field_views(es@) =~= v.update(i as int, (before[i as int].0@, value@)));
            assert forall|a: int, b: int| 0 <= a < b < field_views(es@).len() implies seq_lt(
                field_views(es@)[a].0,
                field_views(es@)[b].0,
            ) by {
                assert(field_views(es@)[a].0 == v[a].0);
                assert(field_views(es@)[b].0 == v[b].0);
            }
        }
    } else {
        es.insert(i, (name, value));
        proof {
            assert(field_views(es@) =~= v.insert(i as int, (name@, value@)));
            assert forall|a: int, b: int| 0 <= a < b < field_views(es@).len() implies seq_lt(
                field_views(es@)[a].0,
                field_views(es@)[b].0,
            ) by {
                let w = field_views(es@);
                if b < i {
                } else if a < i && b == i {
                } else if a < i && b > i {
                    assert(w[b] == v[b - 1]);
                } else if a == i {
                    assert(w[b] == v[b - 1]);
                    assert(!seq_lt(v[i as int].0, name@));
                    assert(v[i as int].0 != name@);
                    lemma_seq_lt_total(v[i as int].0, name@);
                    if b - 1 > i {
                        assert(seq_lt(v[i as int].0, v[b - 1].0));
                        lemma_seq_lt_trans(name@, v[i as int].0, v[b - 1].0);
                    }
                } else {
                    assert(w[a] == v[a - 1]);
                    assert(w[b] == v[b - 1]);
                }
            }
        }
    }
}

/// The position of the first entry of `es` named `name`, if there is one.
fn find_field(es: &Vec<Field>, name: &str) -> (r: Option<usize>)
    ensures
        match r {
            Some(i) => i < es@.len() && field_views(es@)[i as int].0 == name@ && field_value(
                field_views(es@),
                name@,
            ) == field_views(es@)[i as int].1,
            None => !has_field(field_views(es@), name@),
        },
        r is Some <==> has_field(field_views(es@), name@),
{
    let ghost v = field_views(es@);
    let mut i: usize = 0;
    proof {
        assert(v.skip(0) == v);
    }
    while i < es.len()
        invariant
            v == field_views(es@),
            i <= v.len(),
            forall|j: int| 0 <= j < i ==> v[j].0 != name@,
            field_value(v, name@) == field_value(v.skip(i as int), name@),
        decreases v.len() - i,
    {
        proof {
            assert(v.skip(i as int)[0] == v[i as int]);
            assert(v.skip(i as int).drop_first() == v.skip(i + 1));
        }
        if str_eq(es[i].0.as_str(), name) {
            return Some(i);
        }
        i += 1;
    }
    None
}

/// The fields `es` without those named `name`.
fn remove_field(es: Vec<Field>, name: &str) -> (r: Vec<Field>)
    ensures
        field_views(r@) == without_field(field_views(es@), name@),
{
    let ghost v = field_views(es@);
    let mut r: Vec<Field> = Vec::new();
    let n = es.len();
    let mut rest = es;
    let mut k: usize = 0;
    while k < n
        invariant
            n == v.len(),
            k <= n,
            rest@.len() == n - k,
            field_views(rest@) == v.skip(k as int),
            field_views(r@) == without_field(v.take(k as int), name@),
        decreases n - k,
    {
        let ghost rest_before = rest@;
        let f = rest.remove(0);
        proof {
            assert(rest@ == rest_before.drop_first());
            assert(field_views(rest_before)[0] == v[k as int]);
            assert forall|j: int| 0 <= j < rest@.len() implies field_views(rest@)[j] == v.skip(
                k + 1,
            )[j] by {
                assert(rest@[j] == rest_before[j + 1]);
                assert(field_views(rest_before)[j + 1] == v.skip(k as int)[j + 1]);
            }
            assert(field_views(rest@) =~= v.skip(k + 1));
            assert((f.0@, f.1@) == v[k as int]);
            assert(v.take(k + 1).drop_last() == v.take(k as int));
        }
        if !str_eq(f.0.as_str(), name) {
            let ghost before = r@;
            r.push(f);
            proof {
                assert(field_views(r@) =~= field_views(before).push(v[k as int]));
            }
        }
        k += 1;
    }
    proof {
        assert(v.take(n as int) == v);
    }
    r
}

/// The severity of a log event.
#[derive(Clone, Copy, Debug, PartialEq, Eq, Structural)]
pub enum LogLevel {
    Error,
    Warn,
    Info,
    Debug,
    Trace,
}

/// The digit of the syslog priority of a level: `LOG_ERR` (3),
/// `LOG_WARNING` (4), `LOG_INFO` (6) or `LOG_DEBUG` (7), trace included.
pub open spec fn priority_digit(l: LogLevel) -> char {
    match l {
        LogLevel::Error => '3',
        LogLevel::Warn => '4',
        LogLevel::Info => '6',
        LogLevel::Debug => '7',
        LogLevel::Trace => '7',
    }
}

/// The fields recorded on a span, and its name.
pub struct SpanFields {
    pub name: String,
    pub fields: Vec<Field>,
}

/// The fields of the spans `spans`, from the root on, those of inner spans
/// replacing those of outer ones.
pub open spec fn span_entries(spans: Seq<SpanFields>) -> Seq<(Seq<char>, Seq<char>)>
    decreases spans.len(),
{
    if spans.len() == 0 {
        Seq::empty()
    } else {
        insert_all(span_entries(spans.drop_last()), field_views(spans.last().fields@))
    }
}

/// The fields of the scope of an event: those of its spans, with the name
/// of the innermost span as `activity` unless a span sets one.
pub open spec fn scope_entries(spans: Option<Seq<SpanFields>>) -> Seq<(Seq<char>, Seq<char>)> {
    match spans {
        None => Seq::empty(),
        Some(ss) => {
            let es = span_entries(ss);
            if has_field(es, "activity"@) {
                es
            } else {
                spec_insert(
                    es,
                    "activity"@,
                    if ss.len() > 0 {
                        ss.last().name@
                    } else {
                        Seq::empty()
                    },
                )
            }
        },
    }
}

/// The message among the event fields `fs`: the last one named `message`.
pub open spec fn event_message(fs: Seq<(Seq<char>, Seq<char>)>) -> Option<Seq<char>>
    decreases fs.len(),
{
    if fs.len() == 0 {
        None
    } else if fs.last().0 == "message"@ {
        Some(fs.last().1)
    } else {
        event_message(fs.drop_last())
    }
}

/// All fields of an event: those of its scope, then its own but the
/// message.
pub open spec fn event_entries(spans: Option<Seq<SpanFields>>, fs: Seq<(Seq<char>, Seq<char>)>) -> Seq<
    (Seq<char>, Seq<char>),
> {
    insert_all(scope_entries(spans), without_field(fs, "message"@))
}

/// The structured-data parameter for the field `name`, if there is one.
pub open spec fn param(es: Seq<(Seq<char>, Seq<char>)>, name: Seq<char>) -> Seq<char> {
    if has_field(es, name) {
        " "@ + remove_invalid_spec(name) + "=\""@ + escape_val_spec(field_value(es, name)) + "\""@
    } else {
        Seq::empty()
    }
}

/// Whether the fields `es` hold a metric.
pub open spec fn has_metric(es: Seq<(Seq<char>, Seq<char>)>) -> bool {
    has_field(es, "metric_name"@) && has_field(es, "metric_value"@)
}

/// The metric element of the structured data, if the fields hold one.
pub open spec fn metric_element(es: Seq<(Seq<char>, Seq<char>)>) -> Seq<char> {
    if has_metric(es) {
        "[metric@55029 name=\""@ + remove_invalid_spec(field_value(es, "metric_name"@))
            + "\" value=\""@ + escape_val_spec(field_value(es, "metric_value"@)) + "\"]"@
    } else {
        Seq::empty()
    }
}

/// The fields left after the metric is taken out.
pub open spec fn without_metric(es: Seq<(Seq<char>, Seq<char>)>) -> Seq<(Seq<char>, Seq<char>)> {
    if has_metric(es) {
        without_field(without_field(es, "metric_name"@), "metric_value"@)
    } else {
        es
    }
}

/// A field that is appended to the message: not one of the structured data
/// and not of the `log.` family.
pub open spec fn appended_field(name: Seq<char>) -> bool {
    &&& name != "device"@
    &&& name != "activity"@
    &&& name != "remote"@
    &&& !"log."@.is_prefix_of(name)
}

/// The fields appended to the message, in order: `, name=value` each.
pub open spec fn appended(es: Seq<(Seq<char>, Seq<char>)>) -> Seq<char>
    decreases es.len(),
{
    if es.len() == 0 {
        Seq::empty()
    } else if appended_field(es.last().0) {
        appended(es.drop_last()) + ", "@ + es.last().0 + "="@ + es.last().1
    } else {
        appended(es.drop_last())
    }
}

/// The log line of an event at `level` with fields `es` and `message`:
/// priority and structured data (`device`, `activity`, `remote`, then the
/// metric), the message, the other fields, and a newline.
pub open spec fn log_line(level: LogLevel, es: Seq<(Seq<char>, Seq<char>)>, message: Option<Seq<char>>) -> Seq<
    char,
> {
    seq!['<', priority_digit(level)] + ">[bnw@55029"@ + param(es, "device"@) + param(es, "activity"@)
        + param(es, "remote"@) + "]"@ + metric_element(es) + " "@ + match message {
        Some(m) => m,
        None => Seq::empty(),
    } + appended(without_metric(es)) + "\n"@
}

/// The views of the scope of an event.
pub open spec fn spans_view(spans: Option<Vec<SpanFields>>) -> Option<Seq<SpanFields>> {
    match spans {
        Some(v) => Some(v@),
        None => None,
    }
}

/// Whether `name` starts with `log.`.
fn has_log_prefix(name: &str) -> (r: bool)
    ensures
        r == "log."@.is_prefix_of(name@),
{
    let c = chars_of(name);
    proof {
        reveal_strlit("log.");
    }
    let r = c.len() >= 4 && c[0] == 'l' && c[1] == 'o' && c[2] == 'g' && c[3] == '.';
    proof {
        if r {
            assert("log."@ =~= name@.subrange(0, 4));
        }
        if "log."@.is_prefix_of(name@) {
            assert(name@.subrange(0, 4)[0] == name@[0]);
            assert(name@.subrange(0, 4)[1] == name@[1]);
            assert(name@.subrange(0, 4)[2] == name@[2]);
            assert(name@.subrange(0, 4)[3] == name@[3]);
        }
    }
    r
}

/// Store the fields `fields`, in order, into `all`.
fn insert_fields(all: &mut Vec<Field>, fields: &Vec<Field>)
    requires
        names_ascending(field_views(old(all)@)),
    ensures
        field_views(final(all)@) == insert_all(field_views(old(all)@), field_views(fields@)),
        names_ascending(field_views(final(all)@)),
{
    let ghost start = field_views(all@);
    let ghost fs = field_views(fields@);
    let mut i: usize = 0;
    proof {
        assert(fs.take(0).len() == 0);
    }
    while i < fields.len()
        invariant
            fs == field_views(fields@),
            i <= fs.len(),
            field_views(all@) == insert_all(start, fs.take(i as int)),
            names_ascending(field_views(all@)),
        decreases fs.len() - i,
    {
        proof {
            assert(fs.take(i + 1).drop_last() == fs.take(i as int));
            assert(fs.take(i + 1).last() == fs[i as int]);
        }
        insert_field(all, fields[i].0.clone(), fields[i].1.clone());
        i += 1;
    }
    proof {
        assert(fs.take(fs.len() as int) == fs);
    }
}

/// Append the structured-data parameter for the field `name` of `es`.
fn push_param(line: &mut String, es: &Vec<Field>, name: &str)
    ensures
        final(line)@ == old(line)@ + param(field_views(es@), name@),
{
    match find_field(es, name) {
        Some(i) => {
            line.push(' ');
            line.push_str(remove_invalid(name).as_str());
            line.push_str("=\"");
            line.push_str(escape_val(es[i].1.as_str()).as_str());
            line.push('"');
            proof {
                reveal_strlit("=\"");
                reveal_strlit(" ");
                reveal_strlit("\"");
            }
        },
        None => {
            proof {
                assert(line@ == old(line)@ + Seq::<char>::empty());
            }
        },
    }
}

/// The fields of an event (those of the spans of its scope, from the root
/// on, then its own) and its message.
fn collect_fields(spans: &Option<Vec<SpanFields>>, event_fields: &Vec<Field>) -> (r: (
    Vec<Field>,
    Option<String>,
))
    ensures
        field_views(r.0@) == event_entries(spans_view(*spans), field_views(event_fields@)),
        match r.1 {
            Some(m) => event_message(field_views(event_fields@)) == Some(m@),
            None => event_message(field_views(event_fields@)) is None,
        },
{
    proof {
        reveal_strlit("activity");
        reveal_strlit("message");
    }
    let mut all: Vec<Field> = Vec::new();
    match spans {
        Some(ss) => {
            let mut i: usize = 0;
            while i < ss.len()
                invariant
                    i <= ss@.len(),
                    field_views(all@) == span_entries(ss@.take(i as int)),
                    names_ascending(field_views(all@)),
                decreases ss@.len() - i,
            {
                proof {
                    assert(ss@.take(i + 1).drop_last() == ss@.take(i as int));
                    assert(ss@.take(i + 1).last() == ss@[i as int]);
                }
                insert_fields(&mut all, &ss[i].fields);
                i += 1;
            }
            proof {
                assert(ss@.take(ss@.len() as int) == ss@);
            }
            if find_field(&all, "activity").is_none() {
                let last = if ss.len() > 0 {
                    ss[ss.len() - 1].name.clone()
                } else {
                    String::new()
                };
                insert_field(&mut all, "activity".to_owned(), last);
            }
        },
        None => {},
    }
    let ghost scope = field_views(all@);
    assert(scope == scope_entries(spans_view(*spans)));
    let ghost fs = field_views(event_fields@);
    let mut message: Option<String> = None;
    let mut k: usize = 0;
    proof {
        assert(fs.take(0).len() == 0);
    }
    while k < event_fields.len()
        invariant
            fs == field_views(event_fields@),
            k <= fs.len(),
            field_views(all@) == insert_all(scope, without_field(fs.take(k as int), "message"@)),
            names_ascending(field_views(all@)),
            match message {
                Some(m) => event_message(fs.take(k as int)) == Some(m@),
                None => event_message(fs.take(k as int)) is None,
            },
        decreases fs.len() - k,
    {
        proof {
            assert(fs.take(k + 1).drop_last() == fs.take(k as int));
            assert(fs.take(k + 1).last() == fs[k as int]);
        }
        let ghost x = without_field(fs.take(k as int), "message"@);
        proof {
            assert(fs[k as int] == (event_fields@[k as int].0@, event_fields@[k as int].1@));
        }
        if str_eq(event_fields[k].0.as_str(), "message") {
            message = Some(event_fields[k].1.clone());
            proof {
                assert(without_field(fs.take(k + 1), "message"@) == x);
            }
        } else {
            insert_field(&mut all, event_fields[k].0.clone(), event_fields[k].1.clone());
            proof {
                assert(without_field(fs.take(k + 1), "message"@) == x.push(fs[k as int]));
                assert(x.push(fs[k as int]).drop_last() == x);
            }
        }
        k += 1;
    }
    proof {
        assert(fs.take(fs.len() as int) == fs);
    }
    (all, message)
}

/// The line up to the end of the structured data: priority, the
/// parameters and the metric element.
fn structured_data(level: LogLevel, es: &Vec<Field>) -> (r: String)
    ensures
        r@ == seq!['<', priority_digit(level)] + ">[bnw@55029"@ + param(field_views(es@), "device"@)
            + param(field_views(es@), "activity"@) + param(field_views(es@), "remote"@) + "]"@
            + metric_element(field_views(es@)),
{
    let ghost v = field_views(es@);
    let mut line = String::new();
    line.push('<');
    line.push(
        match level {
            LogLevel::Error => '3',
            LogLevel::Warn => '4',
            LogLevel::Info => '6',
            LogLevel::Debug => '7',
            LogLevel::Trace => '7',
        },
    );
    line.push_str(">[bnw@55029");
    push_param(&mut line, es, "device");
    push_param(&mut line, es, "activity");
    push_param(&mut line, es, "remote");
    line.push(']');
    let ghost head = line@;
    proof {
        reveal_strlit("]");
        assert(head == seq!['<', priority_digit(level)] + ">[bnw@55029"@ + param(v, "device"@)
            + param(v, "activity"@) + param(v, "remote"@) + "]"@);
    }
    let name_at = find_field(es, "metric_name");
    let value_at = find_field(es, "metric_value");
    match (name_at, value_at) {
        (Some(n), Some(m)) => {
            let name = remove_invalid(es[n].1.as_str());
            let value = escape_val(es[m].1.as_str());
            line.push_str("[metric@55029 name=\"");
            line.push_str(name.as_str());
            line.push_str("\" value=\"");
            line.push_str(value.as_str());
            line.push_str("\"]");
            proof {
                assert(line@ == head + ("[metric@55029 name=\""@ + name@ + "\" value=\""@ + value@
                    + "\"]"@));
            }
        },
        _ => {
            proof {
                assert(line@ == head + Seq::<char>::empty());
            }
        },
    }
    line
}

/// Append the fields `es` that are appended to the message.
fn append_fields(line: &mut String, es: &Vec<Field>)
    ensures
        final(line)@ == old(line)@ + appended(field_views(es@)),
{
    let ghost start = line@;
    let ghost rs = field_views(es@);
    let mut j: usize = 0;
    proof {
        assert(rs.take(0).len() == 0);
        assert(start + appended(rs.take(0)) == start);
    }
    while j < es.len()
        invariant
            rs == field_views(es@),
            j <= rs.len(),
            line@ == start + appended(rs.take(j as int)),
        decreases rs.len() - j,
    {
        proof {
            assert(rs.take(j + 1).drop_last() == rs.take(j as int));
            assert(rs.take(j + 1).last() == rs[j as int]);
            reveal_strlit("device");
            reveal_strlit("activity");
            reveal_strlit("remote");
        }
        let name = es[j].0.as_str();
        if !str_eq(name, "device") && !str_eq(name, "activity") && !str_eq(name, "remote")
            && !has_log_prefix(name) {
            let ghost before = line@;
            line.push_str(", ");
            line.push_str(name);
            line.push('=');
            line.push_str(es[j].1.as_str());
            proof {
                reveal_strlit(", ");
                reveal_strlit("=");
                assert(line@ == before + (", "@ + rs[j as int].0 + "="@ + rs[j as int].1));
            }
        }
        j += 1;
    }
    proof {
        assert(rs.take(rs.len() as int) == rs);
    }
}

/// The log line of an event at `level`, with the fields recorded on the
/// spans of its scope (from the root on; `None` when it has no scope) and
/// its own fields.
pub fn format_event_line(level: LogLevel, spans: Option<Vec<SpanFields>>, event_fields: Vec<Field>) -> (r: String)
    ensures
        r@ == log_line(
            level,
            event_entries(spans_view(spans), field_views(event_fields@)),
            event_message(field_views(event_fields@)),
        ),
{
    proof {
        reveal_strlit("metric_name");
        reveal_strlit("metric_value");
    }
    let (all, message) = collect_fields(&spans, &event_fields);
    let ghost es = field_views(all@);
    let mut line = structured_data(level, &all);
    let has_metric = find_field(&all, "metric_name").is_some() && find_field(&all, "metric_value").is_some();
    let rest = if has_metric {
        remove_field(remove_field(all, "metric_name"), "metric_value")
    } else {
        all
    };
    let ghost head = line@;
    line.push(' ');
    match &message {
        Some(m) => line.push_str(m.as_str()),
        None => {},
    }
    let ghost with_message = line@;
    append_fields(&mut line, &rest);
    line.push('\n');
    proof {
        reveal_strlit(" ");
        reveal_strlit("\n");
        assert(field_views(rest@) == without_metric(es));
        let msg = match message {
            Some(m) => m@,
            None => Seq::<char>::empty(),
        };
        assert(with_message == head + " "@ + msg);
        assert(line@ == head + " "@ + msg + appended(without_metric(es)) + "\n"@);
    }
    line
}

proof fn lemma_valid_chars_valid(name: Seq<char>)
    ensures
        forall|i: int| 0 <= i < valid_chars(name).len() ==> valid_name_char(#[trigger] valid_chars(name)[i]),
    decreases name.len(),
{
    if name.len() > 0 {
        lemma_valid_chars_valid(name.drop_last());
        let prev = valid_chars(name.drop_last());
        assert forall|i: int| 0 <= i < valid_chars(name).len() implies valid_name_char(
            #[trigger] valid_chars(name)[i],
        ) by {
            if i < prev.len() {
                assert(valid_chars(name)[i] == prev[i]);
            }
        }
    }
}

/// A name made valid holds at most [MAX_NAME_LEN] characters, all of them
/// allowed in RFC 5424 names.
pub proof fn law_remove_invalid_is_valid(name: Seq<char>)
    ensures
        remove_invalid_spec(name).len() <= MAX_NAME_LEN,
        forall|i: int|
            0 <= i < remove_invalid_spec(name).len() ==> valid_name_char(
                #[trigger] remove_invalid_spec(name)[i],
            ),
{
    lemma_valid_chars_valid(name);
    let v = valid_chars(name);
    if v.len() > MAX_NAME_LEN {
        assert forall|i: int| 0 <= i < remove_invalid_spec(name).len() implies valid_name_char(
            #[trigger] remove_invalid_spec(name)[i],
        ) by {
            assert(remove_invalid_spec(name)[i] == v[i]);
        }
    }
}

proof fn lemma_lower_bound(es: Seq<(Seq<char>, Seq<char>)>, name: Seq<char>)
    ensures
        0 <= lower_bound(es, name) <= es.len(),
        forall|j: int| 0 <= j < lower_bound(es, name) ==> seq_lt(#[trigger] es[j].0, name),
        lower_bound(es, name) < es.len() ==> !seq_lt(es[lower_bound(es, name)].0, name),
    decreases es.len(),
{
    if es.len() > 0 && seq_lt(es[0].0, name) {
        let rest = es.drop_first();
        lemma_lower_bound(rest, name);
        assert forall|j: int| 0 <= j < lower_bound(es, name) implies seq_lt(#[trigger] es[j].0, name) by {
            if j > 0 {
                assert(es[j] == rest[j - 1]);
            }
        }
        if lower_bound(es, name) < es.len() {
            assert(es[lower_bound(es, name)] == rest[lower_bound(rest, name)]);
        }
    }
}

proof fn lemma_field_value_at(es: Seq<(Seq<char>, Seq<char>)>, i: int)
    requires
        names_ascending(es),
        0 <= i < es.len(),
    ensures
        field_value(es, es[i].0) == es[i].1,
    decreases i,
{
    if i > 0 {
        lemma_seq_lt_irrefl(es[i].0);
        assert(seq_lt(es[0].0, es[i].0));
        let rest = es.drop_first();
        assert(rest[i - 1] == es[i]);
        assert(names_ascending(rest)) by {
            assert forall|a: int, b: int| 0 <= a < b < rest.len() implies seq_lt(rest[a].0, rest[b].0) by {
                assert(rest[a] == es[a + 1]);
                assert(rest[b] == es[b + 1]);
            }
        }
        lemma_field_value_at(rest, i - 1);
    }
}

proof fn lemma_field_value_absent(es: Seq<(Seq<char>, Seq<char>)>, name: Seq<char>)
    requires
        !has_field(es, name),
    ensures
        field_value(es, name) == Seq::<char>::empty(),
    decreases es.len(),
{
    if es.len() > 0 {
        let rest = es.drop_first();
        assert(!has_field(rest, name)) by {
            if has_field(rest, name) {
                let j = choose|j: int| 0 <= j < rest.len() && rest[j].0 == name;
                assert(es[j + 1] == rest[j]);
            }
        }
        assert(es[0].0 != name);
        lemma_field_value_absent(rest, name);
    }
}

/// A field stored under a name is read back under it, later values
/// replacing earlier ones; the other names keep their values, and the names
/// stay in ascending order.
pub proof fn law_field_insert_read(
    es: Seq<(Seq<char>, Seq<char>)>,
    name: Seq<char>,
    value: Seq<char>,
    other: Seq<char>,
)
    requires
        names_ascending(es),
    ensures
        names_ascending(spec_insert(es, name, value)),
        has_field(spec_insert(es, name, value), name),
        field_value(spec_insert(es, name, value), name) == value,
        other != name ==> has_field(spec_insert(es, name, value), other) == has_field(es, other),
        other != name ==> field_value(spec_insert(es, name, value), other) == field_value(es, other),
{
    let i = lower_bound(es, name);
    lemma_lower_bound(es, name);
    let r = spec_insert(es, name, value);
    if i < es.len() && es[i].0 == name {
        assert(r == es.update(i, (name, value)));
        assert forall|a: int, b: int| 0 <= a < b < r.len() implies seq_lt(r[a].0, r[b].0) by {
            assert(r[a].0 == es[a].0);
            assert(r[b].0 == es[b].0);
        }
        assert(r[i] == (name, value));
        lemma_field_value_at(r, i);
        if other != name {
            if has_field(es, other) {
                let j = choose|j: int| 0 <= j < es.len() && es[j].0 == other;
                assert(r[j] == es[j]);
                lemma_field_value_at(es, j);
                lemma_field_value_at(r, j);
            } else {
                assert(!has_field(r, other)) by {
                    if has_field(r, other) {
                        let j = choose|j: int| 0 <= j < r.len() && r[j].0 == other;
                        assert(es[j].0 == r[j].0);
                    }
                }
                lemma_field_value_absent(es, other);
                lemma_field_value_absent(r, other);
            }
        }
    } else {
        assert(r == es.insert(i, (name, value)));
        assert forall|a: int, b: int| 0 <= a < b < r.len() implies seq_lt(r[a].0, r[b].0) by {
            if b < i {
            } else if a < i && b == i {
            } else if a < i && b > i {
                assert(r[b] == es[b - 1]);
            } else if a == i {
                assert(r[b] == es[b - 1]);
                lemma_seq_lt_total(es[i].0, name);
                if b - 1 > i {
                    lemma_seq_lt_trans(name, es[i].0, es[b - 1].0);
                }
            } else {
                assert(r[a] == es[a - 1]);
                assert(r[b] == es[b - 1]);
            }
        }
        assert(r[i] == (name, value));
        lemma_field_value_at(r, i);
        if other != name {
            if has_field(es, other) {
                let j = choose|j: int| 0 <= j < es.len() && es[j].0 == other;
                let jr = if j < i {
                    j
                } else {
                    j + 1
                };
                assert(r[jr] == es[j]);
                lemma_field_value_at(es, j);
                lemma_field_value_at(r, jr);
            } else {
                assert(!has_field(r, other)) by {
                    if has_field(r, other) {
                        let j = choose|j: int| 0 <= j < r.len() && r[j].0 == other;
                        if j < i {
                            assert(es[j].0 == r[j].0);
                        } else if j > i {
                            assert(es[j - 1].0 == r[j].0);
                        }
                    }
                }
                lemma_field_value_absent(es, other);
                lemma_field_value_absent(r, other);
            }
        }
    }
}

} // verus!
