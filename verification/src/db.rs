//! Measurements as the database takes them.

use vstd::prelude::*;
use vstd::string::StringExecFns;

use crate::btutil::Error;

verus! {

/// The value of a field of a record.
#[derive(Clone, Copy, Debug, PartialEq, Eq, Structural)]
pub enum DbFieldValue {
    /// A decimal number, given in hundredths: `Decimal(535)` is 5.35.
    Decimal(i64),
    /// A whole number.
    Integer(i64),
    /// A truth value.
    Bool(bool),
}

/// No key occurs twice.
pub open spec fn keys_unique<V>(s: Seq<(Seq<char>, V)>) -> bool {
    forall|i: int, j: int| 0 <= i < j < s.len() ==> (#[trigger] s[i]).0 != (#[trigger] s[j]).0
}

/// Whether `key` occurs in `s`.
pub open spec fn has_key<V>(s: Seq<(Seq<char>, V)>, key: Seq<char>) -> bool {
    exists|i: int| 0 <= i < s.len() && (#[trigger] s[i]).0 == key
}

/// A place at which `key` occurs in `s`, if it occurs.
pub open spec fn key_index<V>(s: Seq<(Seq<char>, V)>, key: Seq<char>) -> int {
    choose|i: int| 0 <= i < s.len() && (#[trigger] s[i]).0 == key
}

/// The value that `s` holds for `key`.
pub open spec fn lookup<V>(s: Seq<(Seq<char>, V)>, key: Seq<char>) -> Option<V> {
    if has_key(s, key) {
        Some(s[key_index(s, key)].1)
    } else {
        None
    }
}

/// `s` with `value` for `key`: in the place of the value that `s` has for
/// `key`, or at the end if it has none.
pub open spec fn put<V>(s: Seq<(Seq<char>, V)>, key: Seq<char>, value: V) -> Seq<(Seq<char>, V)> {
    if has_key(s, key) {
        s.update(key_index(s, key), (key, value))
    } else {
        s.push((key, value))
    }
}

/// After `put`, the key has the new value, every other key has the value
/// that it had, and still no key occurs twice.
pub proof fn lemma_put<V>(s: Seq<(Seq<char>, V)>, key: Seq<char>, value: V, other: Seq<char>)
    requires
        keys_unique(s),
    ensures
        keys_unique(put(s, key, value)),
        lookup(put(s, key, value), key) == Some(value),
        other != key ==> lookup(put(s, key, value), other) == lookup(s, other),
        put(s, key, value).len() == if has_key(s, key) {
            s.len()
        } else {
            s.len() + 1
        },
{
    let t = put(s, key, value);
    if has_key(s, key) {
        let k = key_index(s, key);
        assert(t[k].0 == key);
        assert forall|i: int| 0 <= i < t.len() implies (#[trigger] t[i]).0 == s[i].0 by {}
        assert(keys_unique(t)) by {
            assert forall|i: int, j: int| 0 <= i < j < t.len() implies (#[trigger] t[i]).0 != (
            #[trigger] t[j]).0 by {
                assert(s[i].0 != s[j].0);
            }
        }
        let kt = key_index(t, key);
        assert(kt == k) by {
            if kt < k {
                assert(t[kt].0 != t[k].0);
            } else if k < kt {
                assert(t[k].0 != t[kt].0);
            }
        }
        if other != key {
            if has_key(s, other) {
                let o = key_index(s, other);
                assert(t[o].0 == other);
                let ot = key_index(t, other);
                assert(ot == o) by {
                    if ot < o {
                        assert(t[ot].0 != t[o].0);
                    } else if o < ot {
                        assert(t[o].0 != t[ot].0);
                    }
                }
            } else {
                if has_key(t, other) {
                    let ot = key_index(t, other);
                    assert(s[ot].0 == other);
                }
            }
        }
    } else {
        let n = s.len() as int;
        assert(t[n].0 == key);
        assert forall|i: int| 0 <= i < n implies (#[trigger] t[i]) == s[i] by {}
        assert(keys_unique(t)) by {
            assert forall|i: int, j: int| 0 <= i < j < t.len() implies (#[trigger] t[i]).0 != (
            #[trigger] t[j]).0 by {
                if j < n {
                    assert(s[i].0 != s[j].0);
                } else {
                    assert(s[i].0 != key);
                }
            }
        }
        let kt = key_index(t, key);
        assert(kt == n) by {
            if kt < n {
                assert(s[kt].0 == key);
            }
        }
        if other != key {
            if has_key(s, other) {
                let o = key_index(s, other);
                assert(t[o].0 == other);
                let ot = key_index(t, other);
                assert(ot == o) by {
                    if ot < o {
                        assert(t[ot].0 != t[o].0);
                    } else if o < ot {
                        assert(t[o].0 != t[ot].0);
                    }
                }
            } else {
                if has_key(t, other) {
                    let ot = key_index(t, other);
                    assert(ot < n);
                    assert(s[ot].0 == other);
                }
            }
        }
    }
}

/// A key that `s` does not hold is put at the end.
pub proof fn lemma_put_fresh<V>(s: Seq<(Seq<char>, V)>, key: Seq<char>, value: V)
    requires
        forall|i: int| 0 <= i < s.len() ==> (#[trigger] s[i]).0 != key,
    ensures
        put(s, key, value) == s.push((key, value)),
{
}

/// What a record holds: the time of the measurement in nanoseconds since
/// the epoch, its tags and its fields, each in the order in which their
/// keys were first set.
pub struct DbRecordView {
    pub ts: i64,
    pub tags: Seq<(Seq<char>, Seq<char>)>,
    pub fields: Seq<(Seq<char>, DbFieldValue)>,
}

impl DbRecordView {
    /// No tag key and no field key occurs twice.
    pub open spec fn wf(self) -> bool {
        keys_unique(self.tags) && keys_unique(self.fields)
    }
}

/// One measurement.
#[derive(Debug)]
pub struct DbRecord {
    ts: i64,
    tags: Vec<(String, String)>,
    fields: Vec<(String, DbFieldValue)>,
}

impl View for DbRecord {
    type V = DbRecordView;

    closed spec fn view(&self) -> DbRecordView {
        DbRecordView {
            ts: self.ts,
            tags: self.tags@.map_values(|p: (String, String)| (p.0@, p.1@)),
            fields: self.fields@.map_values(|p: (String, DbFieldValue)| (p.0@, p.1)),
        }
    }
}

impl DbRecord {
    /// No tag key and no field key occurs twice.
    pub open spec fn wf(&self) -> bool {
        self@.wf()
    }

    /// A record of the time `ts` without tags and fields.
    pub fn new(ts: i64) -> (record: DbRecord)
        ensures
            record.wf(),
            record@ == (DbRecordView { ts, tags: Seq::empty(), fields: Seq::empty() }),
    {
        let record = DbRecord { ts, tags: Vec::new(), fields: Vec::new() };
        assert(record@.tags =~= Seq::empty());
        assert(record@.fields =~= Seq::empty());
        record
    }

    /// The time of the measurement.
    pub fn ts(&self) -> (ts: i64)
        ensures
            ts == self@.ts,
    {
        self.ts
    }

    /// The value of the tag `key`.
    pub fn tag(&self, key: &str) -> (value: Option<&str>)
        requires
            self.wf(),
        ensures
            match value {
                Some(v) => lookup(self@.tags, key@) == Some(v@),
                None => lookup(self@.tags, key@) is None,
            },
    {
        let k: String = key.to_owned();
        let ghost tags = self@.tags;
        let mut i: usize = 0;
        while i < self.tags.len()
            invariant
                i <= self.tags@.len(),
                tags == self@.tags,
                keys_unique(tags),
                k@ == key@,
                forall|j: int| 0 <= j < i ==> (#[trigger] tags[j]).0 != key@,
            decreases self.tags@.len() - i,
        {
            assert(tags[i as int] == (self.tags@[i as int].0@, self.tags@[i as int].1@));
            if self.tags[i].0 == k {
                assert(has_key(tags, key@));
                assert(key_index(tags, key@) == i) by {
                    let c = key_index(tags, key@);
                    if c < i {
                        assert(tags[c].0 != key@);
                    } else if i < c {
                        assert(tags[i as int].0 != tags[c].0);
                    }
                }
                return Some(self.tags[i].1.as_str());
            }
            i += 1;
        }
        assert(!has_key(tags, key@));
        None
    }

    /// The value of the field `key`.
    pub fn field(&self, key: &str) -> (value: Option<DbFieldValue>)
        requires
            self.wf(),
        ensures
            value == lookup(self@.fields, key@),
    {
        let k: String = key.to_owned();
        let ghost fields = self@.fields;
        let mut i: usize = 0;
        while i < self.fields.len()
            invariant
                i <= self.fields@.len(),
                fields == self@.fields,
                keys_unique(fields),
                k@ == key@,
                forall|j: int| 0 <= j < i ==> (#[trigger] fields[j]).0 != key@,
            decreases self.fields@.len() - i,
        {
            assert(fields[i as int] == (self.fields@[i as int].0@, self.fields@[i as int].1));
            if self.fields[i].0 == k {
                assert(has_key(fields, key@));
                assert(key_index(fields, key@) == i) by {
                    let c = key_index(fields, key@);
                    if c < i {
                        assert(fields[c].0 != key@);
                    } else if i < c {
                        assert(fields[i as int].0 != fields[c].0);
                    }
                }
                return Some(self.fields[i].1);
            }
            i += 1;
        }
        assert(!has_key(fields, key@));
        None
    }

    /// Number of tags.
    pub fn tag_count(&self) -> (n: usize)
        ensures
            n == self@.tags.len(),
    {
        self.tags.len()
    }

    /// Sets the tag `key` to `value`.
    pub fn add_tag(&mut self, key: &str, value: &str)
        requires
            old(self).wf(),
        ensures
            final(self).wf(),
            final(self)@ == (DbRecordView {
                tags: put(old(self)@.tags, key@, value@),
                ..old(self)@
            }),
    {
        let k: String = key.to_owned();
        let v: String = value.to_owned();
        let ghost before = self@.tags;
        let mut i: usize = 0;
        while i < self.tags.len()
            invariant
                i <= self.tags@.len(),
                self@ == old(self)@,
                before == self@.tags,
                keys_unique(before),
                keys_unique(self@.fields),
                k@ == key@,
                v@ == value@,
                forall|j: int| 0 <= j < i ==> (#[trigger] before[j]).0 != key@,
            decreases self.tags@.len() - i,
        {
            assert(before[i as int].0 == self.tags@[i as int].0@);
            if self.tags[i].0 == k {
                assert(has_key(before, key@));
                assert(key_index(before, key@) == i) by {
                    let c = key_index(before, key@);
                    if c < i {
                        assert(before[c].0 != key@);
                    } else if i < c {
                        assert(before[i as int].0 != before[c].0);
                    }
                }
                self.tags.set(i, (k, v));
                proof {
                    lemma_put(before, key@, value@, key@);
                }
                assert(self@.tags =~= put(before, key@, value@));
                return ;
            }
            i += 1;
        }
        assert(!has_key(before, key@));
        self.tags.push((k, v));
        proof {
            lemma_put(before, key@, value@, key@);
        }
        assert(self@.tags =~= put(before, key@, value@));
    }

    /// Sets the field `key` to `value`.
    pub fn add_field(&mut self, key: &str, value: DbFieldValue)
        requires
            old(self).wf(),
        ensures
            final(self).wf(),
            final(self)@ == (DbRecordView {
                fields: put(old(self)@.fields, key@, value),
                ..old(self)@
            }),
    {
        let k: String = key.to_owned();
        let ghost before = self@.fields;
        let mut i: usize = 0;
        while i < self.fields.len()
            invariant
                i <= self.fields@.len(),
                self@ == old(self)@,
                before == self@.fields,
                keys_unique(before),
                keys_unique(self@.tags),
                k@ == key@,
                forall|j: int| 0 <= j < i ==> (#[trigger] before[j]).0 != key@,
            decreases self.fields@.len() - i,
        {
            assert(before[i as int].0 == self.fields@[i as int].0@);
            if self.fields[i].0 == k {
                assert(has_key(before, key@));
                assert(key_index(before, key@) == i) by {
                    let c = key_index(before, key@);
                    if c < i {
                        assert(before[c].0 != key@);
                    } else if i < c {
                        assert(before[i as int].0 != before[c].0);
                    }
                }
                self.fields.set(i, (k, value));
                proof {
                    lemma_put(before, key@, value, key@);
                }
                assert(self@.fields =~= put(before, key@, value));
                return ;
            }
            i += 1;
        }
        assert(!has_key(before, key@));
        self.fields.push((k, value));
        proof {
            lemma_put(before, key@, value, key@);
        }
        assert(self@.fields =~= put(before, key@, value));
    }
}

/// The view of a record, or the error.
pub open spec fn record_result_view(res: Result<DbRecord, Error>) -> Result<DbRecordView, Error> {
    match res {
        Ok(r) => Ok(r@),
        Err(e) => Err(e),
    }
}

/// A digit as text.
pub open spec fn digit(d: int) -> Seq<char>
    recommends
        0 <= d <= 9,
{
    if d == 0 {
        "0"@
    } else if d == 1 {
        "1"@
    } else if d == 2 {
        "2"@
    } else if d == 3 {
        "3"@
    } else if d == 4 {
        "4"@
    } else if d == 5 {
        "5"@
    } else if d == 6 {
        "6"@
    } else if d == 7 {
        "7"@
    } else if d == 8 {
        "8"@
    } else {
        "9"@
    }
}

/// A natural number in decimal digits, without leading zeros.
pub open spec fn decimal(n: nat) -> Seq<char>
    decreases n,
{
    if n < 10 {
        digit(n as int)
    } else {
        decimal(n / 10) + digit((n % 10) as int)
    }
}

/// A whole number in decimal digits, with a minus sign if it is negative.
pub open spec fn integer(v: int) -> Seq<char> {
    if v < 0 {
        "-"@ + decimal((-v) as nat)
    } else {
        decimal(v as nat)
    }
}

/// A number of hundredths as a decimal number: the whole part, and after a
/// point the hundredths without a zero at the end, if there are any.
pub open spec fn hundredths(v: int) -> Seq<char> {
    let mag = if v < 0 {
        -v
    } else {
        v
    };
    let sign = if v < 0 {
        "-"@
    } else {
        Seq::<char>::empty()
    };
    let frac = mag % 100;
    sign + decimal((mag / 100) as nat) + if frac == 0 {
        Seq::<char>::empty()
    } else if frac % 10 == 0 {
        "."@ + digit(frac / 10)
    } else {
        "."@ + digit(frac / 10) + digit(frac % 10)
    }
}

/// The value of a field as text.
pub open spec fn value_text(value: DbFieldValue) -> Seq<char> {
    match value {
        DbFieldValue::Decimal(v) => hundredths(v as int),
        DbFieldValue::Integer(v) => integer(v as int),
        DbFieldValue::Bool(v) => if v {
            "true"@
        } else {
            "false"@
        },
    }
}

/// The tags of a record as text: for each tag a comma, the key, an equals
/// sign and the value.
pub open spec fn tags_text(tags: Seq<(Seq<char>, Seq<char>)>) -> Seq<char>
    decreases tags.len(),
{
    if tags.len() == 0 {
        Seq::empty()
    } else {
        tags_text(tags.drop_last()) + ","@ + tags.last().0 + "="@ + tags.last().1
    }
}

/// The fields of a record as text: for each field the key, an equals sign
/// and the value, with commas between the fields.
pub open spec fn fields_text(fields: Seq<(Seq<char>, DbFieldValue)>) -> Seq<char>
    decreases fields.len(),
{
    if fields.len() == 0 {
        Seq::empty()
    } else if fields.len() == 1 {
        fields[0].0 + "="@ + value_text(fields[0].1)
    } else {
        fields_text(fields.drop_last()) + ","@ + fields.last().0 + "="@ + value_text(
            fields.last().1,
        )
    }
}

/// The line of a record: the measurement and the tags, a space, the fields,
/// a space, the time, and a line feed.
pub open spec fn line(meas: Seq<char>, r: DbRecordView) -> Seq<char> {
    meas + tags_text(r.tags) + " "@ + fields_text(r.fields) + " "@ + integer(r.ts as int) + "\n"@
}

/// The lines of the records, one after the other.
pub open spec fn lines(meas: Seq<char>, records: Seq<DbRecordView>) -> Seq<char>
    decreases records.len(),
{
    if records.len() == 0 {
        Seq::empty()
    } else {
        lines(meas, records.drop_last()) + line(meas, records.last())
    }
}

/// A digit as text.
fn digit_str(d: u64) -> (s: &'static str)
    requires
        d <= 9,
    ensures
        s@ == digit(d as int),
{
    if d == 0 {
        "0"
    } else if d == 1 {
        "1"
    } else if d == 2 {
        "2"
    } else if d == 3 {
        "3"
    } else if d == 4 {
        "4"
    } else if d == 5 {
        "5"
    } else if d == 6 {
        "6"
    } else if d == 7 {
        "7"
    } else if d == 8 {
        "8"
    } else {
        "9"
    }
}

/// Appends `n` in decimal digits to `out`.
fn push_decimal(out: &mut String, n: u64)
    ensures
        final(out)@ == old(out)@ + decimal(n as nat),
    decreases n,
{
    if n >= 10 {
        push_decimal(out, n / 10);
    }
    out.append(digit_str(n % 10));
    assert(out@ =~= old(out)@ + decimal(n as nat));
}

/// The size of `v` without its sign.
fn magnitude(v: i64) -> (mag: u64)
    ensures
        mag == if v < 0 {
            -v
        } else {
            v as int
        },
{
    if v < 0 {
        (-(v + 1)) as u64 + 1
    } else {
        v as u64
    }
}

/// Appends `v` in decimal digits to `out`.
pub fn push_integer(out: &mut String, v: i64)
    ensures
        final(out)@ == old(out)@ + integer(v as int),
{
    if v < 0 {
        out.append("-");
    }
    push_decimal(out, magnitude(v));
    assert(out@ =~= old(out)@ + integer(v as int));
}

/// Appends the `v` hundredths as a decimal number to `out`.
pub fn push_hundredths(out: &mut String, v: i64)
    ensures
        final(out)@ == old(out)@ + hundredths(v as int),
{
    let mag = magnitude(v);
    if v < 0 {
        out.append("-");
    }
    push_decimal(out, mag / 100);
    let frac = mag % 100;
    if frac != 0 {
        out.append(".");
        out.append(digit_str(frac / 10));
        if frac % 10 != 0 {
            out.append(digit_str(frac % 10));
        }
    }
    assert(out@ =~= old(out)@ + hundredths(v as int));
}

/// Appends the value of a field to `out`.
pub fn push_value(out: &mut String, value: DbFieldValue)
    ensures
        final(out)@ == old(out)@ + value_text(value),
{
    match value {
        DbFieldValue::Decimal(v) => push_hundredths(out, v),
        DbFieldValue::Integer(v) => push_integer(out, v),
        DbFieldValue::Bool(v) => if v {
            out.append("true")
        } else {
            out.append("false")
        },
    }
}

impl DbRecord {
    /// Number of fields.
    pub fn field_count(&self) -> (n: usize)
        ensures
            n == self@.fields.len(),
    {
        self.fields.len()
    }

    /// Appends the line of this record for the measurement `meas` to `out`.
    pub fn push_line(&self, out: &mut String, meas: &str)
        ensures
            final(out)@ == old(out)@ + line(meas@, self@),
    {
        out.append(meas);
        let ghost start = out@;
        let mut i: usize = 0;
        while i < self.tags.len()
            invariant
                i <= self.tags@.len(),
                out@ == start + tags_text(self@.tags.take(i as int)),
            decreases self.tags@.len() - i,
        {
            let ghost done = self@.tags.take(i as int);
            let ghost more = self@.tags.take(i + 1);
            assert(more.drop_last() =~= done);
            assert(more.last() == (self.tags@[i as int].0@, self.tags@[i as int].1@));
            out.append(",");
            out.append(self.tags[i].0.as_str());
            out.append("=");
            out.append(self.tags[i].1.as_str());
            assert(out@ =~= start + tags_text(more));
            i += 1;
        }
        assert(self@.tags.take(i as int) =~= self@.tags);
        out.append(" ");
        let ghost start = out@;
        let mut i: usize = 0;
        while i < self.fields.len()
            invariant
                i <= self.fields@.len(),
                out@ == start + fields_text(self@.fields.take(i as int)),
            decreases self.fields@.len() - i,
        {
            let ghost done = self@.fields.take(i as int);
            let ghost more = self@.fields.take(i + 1);
            assert(more.drop_last() =~= done);
            assert(more.last() == (self.fields@[i as int].0@, self.fields@[i as int].1));
            if i > 0 {
                out.append(",");
            }
            out.append(self.fields[i].0.as_str());
            out.append("=");
            push_value(out, self.fields[i].1);
            assert(out@ =~= start + fields_text(more));
            i += 1;
        }
        assert(self@.fields.take(i as int) =~= self@.fields);
        out.append(" ");
        push_integer(out, self.ts);
        out.append("\n");
        assert(out@ =~= old(out)@ + line(meas@, self@));
    }
}

/// Where the database is and how to write to it.
#[derive(Debug)]
pub struct DbConfig {
    pub url: String,
    pub token: String,
    pub org: String,
    pub bucket: String,
}

/// The path of the write endpoint, below the URL of the database.
pub const WRITE_PATH: &'static str = "/api/v2/write";

/// The precision of the timestamps: nanoseconds.
pub const PRECISION: &'static str = "ns";

/// What precedes the token in the authorization header.
pub const TOKEN_PREFIX: &'static str = "Token ";

pub const CONTENT_TYPE: &'static str = "text/plain; charset=utf-8";

pub const ACCEPT: &'static str = "application/json";

/// One write request to the database: the URL to post to, the query
/// parameters `org`, `bucket` and `precision`, the headers `Authorization`,
/// `Content-Type` and `Accept`, and the body.
#[derive(Debug)]
pub struct DbRequest {
    pub url: String,
    pub org: String,
    pub bucket: String,
    pub precision: String,
    pub authorization: String,
    pub content_type: String,
    pub accept: String,
    pub body: String,
}

/// The database.
#[derive(Debug)]
pub struct Db {
    config: DbConfig,
}

impl View for Db {
    type V = DbConfig;

    closed spec fn view(&self) -> DbConfig {
        self.config
    }
}

impl Db {
    pub fn new(config: DbConfig) -> (db: Db)
        ensures
            db@ == config,
    {
        Db { config }
    }

    /// The request that writes `records` to the measurement `meas`: all
    /// records go into one request, a line each.
    pub fn send(&self, meas: &str, records: &[DbRecord]) -> (request: DbRequest)
        requires
            records@.len() > 0,
            forall|i: int| 0 <= i < records@.len() ==> (#[trigger] records@[i])@.fields.len() > 0,
        ensures
            request.url@ == self@.url@ + WRITE_PATH@,
            request.org@ == self@.org@,
            request.bucket@ == self@.bucket@,
            request.precision@ == PRECISION@,
            request.authorization@ == TOKEN_PREFIX@ + self@.token@,
            request.content_type@ == CONTENT_TYPE@,
            request.accept@ == ACCEPT@,
            request.body@ == lines(meas@, records@.map_values(|r: DbRecord| r@)),
    {
        let ghost all = records@.map_values(|r: DbRecord| r@);
        let mut body = String::new();
        let mut i: usize = 0;
        while i < records.len()
            invariant
                i <= records@.len(),
                all == records@.map_values(|r: DbRecord| r@),
                body@ == lines(meas@, all.take(i as int)),
            decreases records@.len() - i,
        {
            assert(all.take(i + 1).drop_last() =~= all.take(i as int));
            assert(all.take(i + 1).last() == records@[i as int]@);
            records[i].push_line(&mut body, meas);
            i += 1;
        }
        assert(all.take(i as int) =~= all);
        let mut url = self.config.url.clone();
        url.append(WRITE_PATH);
        let mut authorization = TOKEN_PREFIX.to_owned();
        authorization.append(self.config.token.as_str());
        DbRequest {
            url,
            org: self.config.org.clone(),
            bucket: self.config.bucket.clone(),
            precision: PRECISION.to_owned(),
            authorization,
            content_type: CONTENT_TYPE.to_owned(),
            accept: ACCEPT.to_owned(),
            body,
        }
    }
}

} // verus!
