//! Messages and the builder that assembles them.
//!
//! Properties are kept as the list of writes made to them; the property set
//! they stand for is that list folded left to right, so a later write to a
//! name overwrites an earlier one.
use vstd::prelude::*;

verus! {

/// Declares `serde_json::Value` so that a structured payload can be passed
/// through to the encoder.
#[verifier::external_type_specification]
#[verifier::external_body]
pub struct ExJsonValue(serde_json::Value);

/// Declares `serde_json::Error`, the encoder's failure.
#[verifier::external_type_specification]
#[verifier::external_body]
pub struct ExJsonError(serde_json::Error);

/// Relies on serde_json::to_vec to encode a JSON value as bytes. It fails
/// only when a `Serialize` impl fails or a map key is not a string, and the
/// impl for `Value` does neither, so encoding a `Value` succeeds.
#[verifier::external_body]
fn encode_json(value: &serde_json::Value) -> (r: Result<Vec<u8>, serde_json::Error>)
    ensures
        r is Ok,
{
    serde_json::to_vec(value)
}

/// Relies on chrono's `From<SystemTime> for DateTime<Utc>`, which also takes
/// a clock set before the Unix epoch (it panics only outside the range of
/// `DateTime`, about 262,000 years either side of the epoch), read as
/// milliseconds since the epoch by `timestamp_millis`. Nothing is assumed of
/// the reading.
#[verifier::external_body]
fn now_millis() -> (r: i64) {
    chrono::DateTime::<chrono::Utc>::from(std::time::SystemTime::now()).timestamp_millis()
}

/// Why a message could not be built.
#[derive(Clone, Copy, Debug, PartialEq, Eq, Structural)]
pub enum BuildError {
    /// No payload was ever set.
    MissingPayload,
    /// Encoding the structured payload failed when it was set.
    SerializationError,
}

/// The property set written by `entries` on top of `base`, later writes
/// overwriting earlier ones.
pub open spec fn merge_properties(
    base: Map<Seq<char>, Seq<char>>,
    entries: Seq<(String, String)>,
) -> Map<Seq<char>, Seq<char>>
    decreases entries.len(),
{
    if entries.len() == 0 {
        base
    } else {
        merge_properties(base, entries.drop_last()).insert(
            entries.last().0@,
            entries.last().1@,
        )
    }
}

/// The property set that a list of writes stands for.
pub open spec fn property_map(entries: Seq<(String, String)>) -> Map<Seq<char>, Seq<char>> {
    merge_properties(Map::empty(), entries)
}

/// Writing `entries` after `first` leaves what writing `entries` on top of
/// the set that `first` stands for leaves.
proof fn lemma_merge_append(first: Seq<(String, String)>, entries: Seq<(String, String)>)
    ensures
        property_map(first + entries) == merge_properties(property_map(first), entries),
    decreases entries.len(),
{
    if entries.len() == 0 {
        assert(first + entries =~= first);
    } else {
        lemma_merge_append(first, entries.drop_last());
        assert((first + entries).drop_last() =~= first + entries.drop_last());
    }
}

/// Mathematical picture of a message.
pub struct MessageView {
    pub data: Seq<u8>,
    pub timestamp: i64,
    pub properties: Map<Seq<char>, Seq<char>>,
}

/// A payload with a timestamp, in milliseconds since the Unix epoch, and a
/// set of string properties, ready to hand to a connection.
pub struct Message {
    data: Vec<u8>,
    timestamp: i64,
    properties: Vec<(String, String)>,
}

impl View for Message {
    type V = MessageView;

    closed spec fn view(&self) -> MessageView {
        MessageView {
            data: self.data@,
            timestamp: self.timestamp,
            properties: property_map(self.properties@),
        }
    }
}

impl Message {
    /// The payload.
    pub fn data(&self) -> (r: &Vec<u8>)
        ensures
            r@ == self@.data,
    {
        &self.data
    }

    /// The timestamp, in milliseconds since the Unix epoch.
    pub fn timestamp(&self) -> (r: i64)
        ensures
            r == self@.timestamp,
    {
        self.timestamp
    }

    /// The timestamp as the broker's unsigned event time: the millisecond
    /// count reinterpreted as `u64`.
    pub fn event_time(&self) -> (r: u64)
        ensures
            r == self@.timestamp as u64,
    {
        self.timestamp as u64
    }

    /// The property set as pairs, one for each name.
    pub fn property_pairs(&self) -> (r: Vec<(String, String)>)
        ensures
            forall|a: int, b: int|
                0 <= a < b < r@.len() ==> #[trigger] r@[a].0@ != #[trigger] r@[b].0@,
            forall|a: int|
                0 <= a < r@.len() ==> self@.properties.contains_key(#[trigger] r@[a].0@)
                    && self@.properties[r@[a].0@] == r@[a].1@,
            forall|k: Seq<char>|
                #[trigger] self@.properties.contains_key(k) ==> exists|a: int|
                    0 <= a < r@.len() && #[trigger] r@[a].0@ == k,
    {
        let ghost s = self.properties@;
        let mut r: Vec<(String, String)> = Vec::new();
        let mut i: usize = self.properties.len();
        while i > 0
            invariant
                s == self.properties@,
                i <= s.len(),
                forall|a: int, b: int|
                    0 <= a < b < r@.len() ==> #[trigger] r@[a].0@ != #[trigger] r@[b].0@,
                forall|a: int|
                    0 <= a < r@.len() ==> property_map(s).contains_key(#[trigger] r@[a].0@)
                        && property_map(s)[r@[a].0@] == r@[a].1@,
                forall|j: int|
                    i <= j < s.len() ==> exists|a: int|
                        0 <= a < r@.len() && #[trigger] r@[a].0@ == #[trigger] s[j].0@,
            decreases i,
        {
            let entry = &self.properties[i - 1];
            if !has_name(&r, &entry.0) {
                proof {
                    assert forall|j: int| i <= j < s.len() implies #[trigger] s[j].0@ != s[i
                        - 1].0@ by {
                        if s[j].0@ == s[i - 1].0@ {
                            let a = choose|a: int| 0 <= a < r@.len() && #[trigger] r@[a].0@ == s[j].0@;
                            assert(r@[a].0@ == entry.0@);
                        }
                    }
                    lemma_last_write(s, i as int, s[i - 1].0@);
                }
                let ghost before = r@;
                r.push((entry.0.clone(), entry.1.clone()));
                proof {
                    assert forall|j: int| i - 1 <= j < s.len() implies exists|a: int|
                        0 <= a < r@.len() && #[trigger] r@[a].0@ == #[trigger] s[j].0@ by {
                        if j == i - 1 {
                            assert(r@[before.len() as int].0@ == s[j].0@);
                        } else {
                            let a = choose|a: int|
                                0 <= a < before.len() && #[trigger] before[a].0@ == s[j].0@;
                            assert(r@[a] == before[a]);
                        }
                    }
                }
            } else {
                proof {
                    let a = choose|a: int| 0 <= a < r@.len() && #[trigger] r@[a].0@ == entry.0@;
                    assert(r@[a].0@ == s[i - 1].0@);
                }
            }
            i = i - 1;
        }
        proof {
            assert forall|k: Seq<char>|
                #[trigger] property_map(s).contains_key(k) implies exists|a: int|
                    0 <= a < r@.len() && #[trigger] r@[a].0@ == k by {
                if !(exists|j: int| 0 <= j < s.len() && #[trigger] s[j].0@ == k) {
                    lemma_merge_skip_other(Map::empty(), s, k);
                } else {
                    let j = choose|j: int| 0 <= j < s.len() && #[trigger] s[j].0@ == k;
                    assert(exists|a: int| 0 <= a < r@.len() && #[trigger] r@[a].0@ == s[j].0@);
                }
            }
        }
        r
    }

    /// The value of property `name`, if it was set.
    pub fn property(&self, name: &String) -> (r: Option<&String>)
        ensures
            match r {
                Some(v) => self@.properties.contains_key(name@) && self@.properties[name@]
                    == v@,
                None => !self@.properties.contains_key(name@),
            },
    {
        let mut i: usize = self.properties.len();
        while i > 0
            invariant
                i <= self.properties@.len(),
                forall|j: int|
                    i <= j < self.properties@.len() ==> #[trigger] self.properties@[j].0@
                        != name@,
            decreases i,
        {
            let entry = &self.properties[i - 1];
            if entry.0 == *name {
                proof {
                    lemma_last_write(self.properties@, i as int, name@);
                }
                return Some(&entry.1);
            }
            i = i - 1;
        }
        proof {
            lemma_merge_skip_other(Map::empty(), self.properties@, name@);
        }
        None
    }
}

/// The write at `i - 1` is the last one to `name`, so it gives the value of
/// `name` in the property set.
proof fn lemma_last_write(s: Seq<(String, String)>, i: int, name: Seq<char>)
    requires
        0 < i <= s.len(),
        s[i - 1].0@ == name,
        forall|j: int| i <= j < s.len() ==> #[trigger] s[j].0@ != name,
    ensures
        property_map(s).contains_key(name),
        property_map(s)[name] == s[i - 1].1@,
{
    let head = s.take(i);
    assert(head + s.skip(i) =~= s);
    lemma_merge_append(head, s.skip(i));
    lemma_merge_skip_other(property_map(head), s.skip(i), name);
    assert(head.last() == s[i - 1]);
}

/// Whether some pair of `pairs` has the name `name`.
fn has_name(pairs: &Vec<(String, String)>, name: &String) -> (r: bool)
    ensures
        r == exists|j: int| 0 <= j < pairs@.len() && #[trigger] pairs@[j].0@ == name@,
{
    let mut i: usize = 0;
    while i < pairs.len()
        invariant
            i <= pairs@.len(),
            forall|j: int| 0 <= j < i ==> #[trigger] pairs@[j].0@ != name@,
        decreases pairs@.len() - i,
    {
        if pairs[i].0 == *name {
            return true;
        }
        i = i + 1;
    }
    false
}

/// Writes to other names leave the value of `name` as it was.
proof fn lemma_merge_skip_other(
    base: Map<Seq<char>, Seq<char>>,
    entries: Seq<(String, String)>,
    name: Seq<char>,
)
    requires
        forall|j: int| 0 <= j < entries.len() ==> #[trigger] entries[j].0@ != name,
    ensures
        merge_properties(base, entries).contains_key(name) == base.contains_key(name),
        base.contains_key(name) ==> merge_properties(base, entries)[name] == base[name],
    decreases entries.len(),
{
    if entries.len() > 0 {
        let rest = entries.drop_last();
        assert forall|j: int| 0 <= j < rest.len() implies #[trigger] rest[j].0@ != name by {
            assert(rest[j] == entries[j]);
        }
        lemma_merge_skip_other(base, rest, name);
        assert(entries.last() == entries[entries.len() - 1]);
    }
}

/// Mathematical picture of a message under construction.
pub struct BuilderView {
    /// The payload, or the error met when it was set; `None` if never set.
    pub data: Option<Result<Seq<u8>, BuildError>>,
    pub timestamp: Option<i64>,
    pub properties: Map<Seq<char>, Seq<char>>,
}

impl BuilderView {
    /// The builder with nothing set.
    pub open spec fn empty() -> Self {
        BuilderView { data: None, timestamp: None, properties: Map::empty() }
    }

    /// What building yields when the clock reads `now`: the payload is
    /// required, and a missing timestamp becomes `now`.
    pub open spec fn built(self, now: i64) -> Result<MessageView, BuildError> {
        match self.data {
            None => Err(BuildError::MissingPayload),
            Some(Err(e)) => Err(e),
            Some(Ok(data)) => Ok(
                MessageView {
                    data,
                    timestamp: match self.timestamp {
                        Some(t) => t,
                        None => now,
                    },
                    properties: self.properties,
                },
            ),
        }
    }

    /// `r` is what building yields at some instant that the clock can read.
    pub open spec fn built_by_clock(self, r: Result<MessageView, BuildError>) -> bool {
        exists|now: i64| #[trigger] self.built(now) == r
    }
}

/// The view of a build's outcome.
pub open spec fn outcome_view(r: Result<Message, BuildError>) -> Result<MessageView, BuildError> {
    match r {
        Ok(m) => Ok(m@),
        Err(e) => Err(e),
    }
}

/// Accumulates a payload, a timestamp and properties, then builds a message.
pub struct MessageBuilder {
    data: Option<Result<Vec<u8>, BuildError>>,
    timestamp: Option<i64>,
    properties: Vec<(String, String)>,
}

impl View for MessageBuilder {
    type V = BuilderView;

    closed spec fn view(&self) -> BuilderView {
        BuilderView {
            data: match self.data {
                Some(Ok(d)) => Some(Ok(d@)),
                Some(Err(e)) => Some(Err(e)),
                None => None,
            },
            timestamp: self.timestamp,
            properties: property_map(self.properties@),
        }
    }
}

impl MessageBuilder {
    /// A builder with nothing set.
    pub fn new() -> (r: Self)
        ensures
            r@ == BuilderView::empty(),
    {
        let r = MessageBuilder { data: None, timestamp: None, properties: Vec::new() };
        proof {
            assert(r@.properties =~= Map::empty());
        }
        r
    }

    /// Sets the payload to raw bytes, replacing any earlier payload.
    pub fn text(self, text: Vec<u8>) -> (r: Self)
        ensures
            r@ == (BuilderView { data: Some(Ok(text@)), ..self@ }),
    {
        MessageBuilder { data: Some(Ok(text)), ..self }
    }

    /// Sets the payload to the JSON encoding of `value`, replacing any
    /// earlier payload; an encoding failure is kept and reported by `build`.
    pub fn json(self, value: &serde_json::Value) -> (r: Self)
        ensures
            r@.data matches Some(Ok(_)),
            r@.timestamp == self@.timestamp,
            r@.properties == self@.properties,
    {
        let data = match encode_json(value) {
            Ok(bytes) => Ok(bytes),
            Err(_) => Err(BuildError::SerializationError),
        };
        MessageBuilder { data: Some(data), ..self }
    }

    /// Sets the payload to the outcome of an encoding made elsewhere: its
    /// bytes, or the error it met, which `build` then reports.
    pub fn encoded(self, payload: Result<Vec<u8>, BuildError>) -> (r: Self)
        ensures
            r@ == (BuilderView {
                data: Some(
                    match payload {
                        Ok(bytes) => Ok(bytes@),
                        Err(e) => Err(e),
                    },
                ),
                ..self@
            }),
    {
        MessageBuilder { data: Some(payload), ..self }
    }

    /// Sets the timestamp, in milliseconds since the Unix epoch.
    pub fn timestamp(self, ts: i64) -> (r: Self)
        ensures
            r@ == (BuilderView { timestamp: Some(ts), ..self@ }),
    {
        MessageBuilder { timestamp: Some(ts), ..self }
    }

    /// Sets property `name` to `value`, overwriting an earlier value.
    pub fn property(self, name: String, value: String) -> (r: Self)
        ensures
            r@ == (BuilderView { properties: self@.properties.insert(name@, value@), ..self@ }),
    {
        let mut b = self;
        let ghost before = b.properties@;
        b.properties.push((name, value));
        proof {
            assert(b.properties@.drop_last() =~= before);
        }
        b
    }

    /// Writes each pair of `entries` in order, later writes overwriting
    /// earlier ones.
    pub fn properties(self, entries: Vec<(String, String)>) -> (r: Self)
        ensures
            r@ == (BuilderView {
                properties: merge_properties(self@.properties, entries@),
                ..self@
            }),
    {
        let mut b = self;
        let ghost before = b.properties@;
        let mut i: usize = 0;
        while i < entries.len()
            invariant
                i <= entries@.len(),
                b.data == self.data,
                b.timestamp == self.timestamp,
                b.properties@ == before + entries@.take(i as int),
                before == self.properties@,
            decreases entries@.len() - i,
        {
            let name = entries[i].0.clone();
            let value = entries[i].1.clone();
            b.properties.push((name, value));
            proof {
                assert(entries@.take(i + 1) =~= entries@.take(i as int).push(entries@[i as int]));
            }
            i = i + 1;
        }
        proof {
            assert(entries@.take(i as int) =~= entries@);
            lemma_merge_append(before, entries@);
        }
        b
    }

    /// Builds the message, taking `now` as the timestamp when none was set.
    pub fn build_at(self, now: i64) -> (r: Result<Message, BuildError>)
        ensures
            outcome_view(r) == self@.built(now),
    {
        match self.data {
            None => Err(BuildError::MissingPayload),
            Some(Err(e)) => Err(e),
            Some(Ok(data)) => {
                let timestamp = match self.timestamp {
                    Some(t) => t,
                    None => now,
                };
                Ok(Message { data, timestamp, properties: self.properties })
            },
        }
    }

    /// Builds the message, stamping it with the current time when no
    /// timestamp was set.
    pub fn build(self) -> (r: Result<Message, BuildError>)
        ensures
            self@.built_by_clock(outcome_view(r)),
    {
        let ghost b = self@;
        match self.timestamp {
            Some(t) => {
                let r = self.build_at(t);
                assert(b.built(0) == b.built(t));
                r
            },
            None => {
                let now = now_millis();
                let r = self.build_at(now);
                assert(b.built(now) == outcome_view(r));
                r
            },
        }
    }
}

/// A message being assembled for a destination `P`, such as a publisher
/// handle; building hands the destination back beside the message.
pub struct ProducedMessage<P> {
    message: MessageBuilder,
    producer: P,
}

impl<P> View for ProducedMessage<P> {
    type V = BuilderView;

    closed spec fn view(&self) -> BuilderView {
        self.message@
    }
}

impl<P> ProducedMessage<P> {
    /// Where the message goes once built.
    pub closed spec fn destination(&self) -> P {
        self.producer
    }

    /// An empty message bound for `producer`.
    pub fn new(producer: P) -> (r: Self)
        ensures
            r@ == BuilderView::empty(),
            r.destination() == producer,
    {
        ProducedMessage { message: MessageBuilder::new(), producer }
    }

    /// Sets the payload to raw bytes.
    pub fn text(self, text: Vec<u8>) -> (r: Self)
        ensures
            r@ == (BuilderView { data: Some(Ok(text@)), ..self@ }),
            r.destination() == self.destination(),
    {
        ProducedMessage { message: self.message.text(text), producer: self.producer }
    }

    /// Sets the payload to the JSON encoding of `value`.
    pub fn json(self, value: &serde_json::Value) -> (r: Self)
        ensures
            r@.data matches Some(Ok(_)),
            r@.timestamp == self@.timestamp,
            r@.properties == self@.properties,
            r.destination() == self.destination(),
    {
        ProducedMessage { message: self.message.json(value), producer: self.producer }
    }

    /// Sets the payload to the outcome of an encoding made elsewhere.
    pub fn encoded(self, payload: Result<Vec<u8>, BuildError>) -> (r: Self)
        ensures
            r@ == (BuilderView {
                data: Some(
                    match payload {
                        Ok(bytes) => Ok(bytes@),
                        Err(e) => Err(e),
                    },
                ),
                ..self@
            }),
            r.destination() == self.destination(),
    {
        ProducedMessage { message: self.message.encoded(payload), producer: self.producer }
    }

    /// Sets the timestamp, in milliseconds since the Unix epoch.
    pub fn timestamp(self, ts: i64) -> (r: Self)
        ensures
            r@ == (BuilderView { timestamp: Some(ts), ..self@ }),
            r.destination() == self.destination(),
    {
        ProducedMessage { message: self.message.timestamp(ts), producer: self.producer }
    }

    /// Sets property `name` to `value`, overwriting an earlier value.
    pub fn property(self, name: String, value: String) -> (r: Self)
        ensures
            r@ == (BuilderView { properties: self@.properties.insert(name@, value@), ..self@ }),
            r.destination() == self.destination(),
    {
        ProducedMessage { message: self.message.property(name, value), producer: self.producer }
    }

    /// Writes each pair of `entries` in order.
    pub fn properties(self, entries: Vec<(String, String)>) -> (r: Self)
        ensures
            r@ == (BuilderView {
                properties: merge_properties(self@.properties, entries@),
                ..self@
            }),
            r.destination() == self.destination(),
    {
        ProducedMessage { message: self.message.properties(entries), producer: self.producer }
    }

    /// Builds the message and hands back its destination with it.
    pub fn build(self) -> (r: Result<(P, Message), BuildError>)
        ensures
            match r {
                Ok((p, m)) => p == self.destination() && self@.built_by_clock(Ok(m@)),
                Err(e) => self@.built_by_clock(Err(e)),
            },
    {
        match self.message.build() {
            Ok(m) => Ok((self.producer, m)),
            Err(e) => Err(e),
        }
    }
}

} // verus!
