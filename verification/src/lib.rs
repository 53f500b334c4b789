//! GTFS-Realtime protobuf decoder that reports anomalies, together with a
//! narrow static GTFS reader, static ↔ realtime consistency rules and the
//! analysis report that combines them.
//!
//! Modules: `wire` reads the protobuf wire format, `decode` and `model` turn
//! it into the GTFS-Realtime messages, `anomaly` names what was seen on the
//! way; `archive`, `table`, `fields`, `reader` and `schedule` read a static
//! GTFS archive; `rules` compares the two; `report` builds the report.
//!
//! The decoder is not a validator: it reads a payload and, next to the decoded
//! message, lists the structural anomalies it saw while reading. Whether they
//! are violations is for a higher layer.
//!
//! Guarantees: no panics on any input, the same bytes always give the same
//! model and the same anomalies in the same order, and partial results are
//! returned rather than discarded when a payload is broken.
pub mod anomaly;
pub mod archive;
pub mod decode;
pub mod fields;
pub mod index;
pub mod schedule;
pub mod table;
pub mod model;
pub mod reader;
pub mod report;
pub mod rules;
pub mod text;
pub mod wire;
pub mod wire_type;

use vstd::prelude::*;
use crate::anomaly::{Anomaly, AnomalyKind, AnomalyView, spec_is_wire_level};
use crate::decode::{
    appended_in_order, decode_body, lemma_append_keeps_order, offsets_in_order, spec_decode_body,
    CtxView, DecodeCtx, Env, DEFAULT_MAX_DEPTH,
};
use crate::model::feed::{FeedMessage, FeedMessageView};

verus! {

/// A decoded payload and the anomalies seen while reading it.
#[derive(Debug, Clone, PartialEq, Eq)]
pub struct DecodedFeed {
    pub message: FeedMessage,
    /// In byte order, the same on every run.
    pub anomalies: Vec<Anomaly>,
}

/// A decoded payload as a plain value.
pub struct DecodedFeedView {
    pub message: FeedMessageView,
    pub anomalies: Seq<AnomalyView>,
}

impl View for DecodedFeed {
    type V = DecodedFeedView;

    open spec fn view(&self) -> DecodedFeedView {
        DecodedFeedView {
            message: self.message@,
            anomalies: self.anomalies@.map_values(|a: Anomaly| a@),
        }
    }
}

/// The anomalies of `s` that belong to the wire framing, in order.
pub open spec fn wire_level_only(s: Seq<AnomalyView>) -> Seq<AnomalyView>
    decreases s.len(),
{
    if s.len() == 0 {
        Seq::empty()
    } else if spec_is_wire_level(s.last().kind) {
        wire_level_only(s.drop_last()).push(s.last())
    } else {
        wire_level_only(s.drop_last())
    }
}

impl DecodedFeed {
    /// Whether no anomaly was seen.
    pub fn is_clean(&self) -> (r: bool)
        ensures
            r == (self@.anomalies.len() == 0),
    {
        self.anomalies.len() == 0
    }

    /// The anomalies of the wire framing, which concern whether the payload
    /// reads as protobuf at all. When there are any, schema-level findings may
    /// be incomplete.
    pub fn wire_anomalies(&self) -> (r: Vec<&Anomaly>)
        ensures
            r@.map_values(|a: &Anomaly| a@) == wire_level_only(self@.anomalies),
    {
        let mut out: Vec<&Anomaly> = Vec::new();
        let ghost all = self@.anomalies;
        let mut i: usize = 0;
        while i < self.anomalies.len()
            invariant
                i <= self.anomalies.len(),
                all == self@.anomalies,
                out@.map_values(|a: &Anomaly| a@) == wire_level_only(all.take(i as int)),
            decreases self.anomalies.len() - i,
        {
            let a = &self.anomalies[i];
            proof {
                assert(all.take(i as int + 1).drop_last() =~= all.take(i as int));
                assert(all.take(i as int + 1).last() == a@);
            }
            if a.kind.is_wire_level() {
                let ghost before = out@.map_values(|a: &Anomaly| a@);
                out.push(a);
                proof {
                    assert(out@.map_values(|a: &Anomaly| a@) =~= before.push(a@));
                }
            }
            i = i + 1;
        }
        proof {
            assert(all.take(self.anomalies.len() as int) =~= all);
        }
        out
    }
}

/// ASCII whitespace that may precede a textual body.
pub open spec fn is_space(b: u8) -> bool {
    b == 0x20 || b == 0x09 || b == 0x0d || b == 0x0a
}

/// Position of the first byte at or after `i` that is not whitespace.
pub open spec fn skip_space(b: Seq<u8>, i: int) -> int
    decreases b.len() - i,
{
    if i < 0 || i >= b.len() {
        i
    } else if is_space(b[i]) {
        skip_space(b, i + 1)
    } else {
        i
    }
}

/// An ASCII letter.
pub open spec fn is_letter(b: u8) -> bool {
    (0x41 <= b <= 0x5a) || (0x61 <= b <= 0x7a)
}

/// What a textual body that is not protobuf looks like, if it looks like one.
///
/// After leading whitespace, `<?` reads as XML and `<` followed by `!` or a
/// letter as HTML. A `{` or `[` counts as JSON only as the very first byte.
/// None of these bytes can start a GTFS-Realtime payload: `<`, `{` and `[` are
/// tags of group wire types.
pub open spec fn spec_looks_like(b: Seq<u8>) -> Option<&'static str> {
    let i = skip_space(b, 0);
    if b.len() > 0 && (b[0] == 0x7b || b[0] == 0x5b) {
        Some("json")
    } else if 0 <= i && i + 1 < b.len() && b[i] == 0x3c {
        if b[i + 1] == 0x3f {
            Some("xml")
        } else if b[i + 1] == 0x21 || is_letter(b[i + 1]) {
            Some("html")
        } else {
            None
        }
    } else {
        None
    }
}

fn looks_like_non_protobuf(bytes: &[u8]) -> (r: Option<&'static str>)
    ensures
        r == spec_looks_like(bytes@),
{
    let n = bytes.len();
    if n > 0 && (bytes[0] == 0x7b || bytes[0] == 0x5b) {
        return Some("json");
    }
    let mut i: usize = 0;
    while i < n && (bytes[i] == 0x20 || bytes[i] == 0x09 || bytes[i] == 0x0d || bytes[i] == 0x0a)
        invariant
            i <= n,
            n == bytes@.len(),
            skip_space(bytes@, 0) == skip_space(bytes@, i as int),
        decreases n - i,
    {
        i = i + 1;
    }
    proof {
        assert(skip_space(bytes@, i as int) == i);
    }
    if n - i > 1 && bytes[i] == 0x3c {
        let c = bytes[i + 1];
        if c == 0x3f {
            Some("xml")
        } else if c == 0x21 || (c >= 0x41 && c <= 0x5a) || (c >= 0x61 && c <= 0x7a) {
            Some("html")
        } else {
            None
        }
    } else {
        None
    }
}

/// The environment of a fresh decoding context.
pub open spec fn root_env(max_depth: u32) -> Env {
    Env { path: Seq::empty(), depth: 0, max_depth, offset_base: 0 }
}

/// What decoding `bytes` in a context `ctx` gives: a payload that looks
/// textual is first reported as such, with a `NotProtobuf` anomaly at offset
/// 0; every payload is then decoded as a `FeedMessage` body.
pub open spec fn spec_decode_feed_with(bytes: Seq<u8>, ctx: CtxView) -> DecodedFeedView {
    let before = match spec_looks_like(bytes) {
        Some(looks_like) => crate::decode::spec_report(
            ctx.env,
            ctx.anomalies,
            AnomalyKind::NotProtobuf { looks_like },
            0,
        ),
        None => ctx.anomalies,
    };
    let (message, anomalies) = spec_decode_body::<FeedMessage>(bytes, ctx.env, before);
    DecodedFeedView { message, anomalies }
}

/// What decoding `bytes` with the default depth cap gives.
pub open spec fn spec_decode_feed(bytes: Seq<u8>) -> DecodedFeedView {
    spec_decode_feed_with(
        bytes,
        CtxView { env: root_env(DEFAULT_MAX_DEPTH), anomalies: Seq::empty() },
    )
}

/// Decodes a GTFS-Realtime payload.
///
/// It returns whatever the input: there is no error type, because "could not
/// be decoded" is a result too and is told in the anomaly list.
///
/// The anomalies come in byte order: their offsets never decrease.
pub fn decode_feed_message(bytes: &[u8]) -> (r: DecodedFeed)
    ensures
        r@ == spec_decode_feed(bytes@),
        offsets_in_order(r@.anomalies),
{
    let _n = bytes.len();
    decode_feed_message_with(bytes, DecodeCtx::new())
}

/// As [`decode_feed_message`], with a prepared context (e.g. another depth cap).
///
/// The anomalies it adds to those of `ctx` come in byte order and lie within
/// the payload; when those of `ctx` are in order and none lies past where the
/// payload starts, the whole list is in byte order.
pub fn decode_feed_message_with(bytes: &[u8], ctx: DecodeCtx) -> (r: DecodedFeed)
    requires
        ctx@.env.offset_base + bytes@.len() <= usize::MAX,
    ensures
        r@ == spec_decode_feed_with(bytes@, ctx@),
        appended_in_order(
            ctx@.anomalies,
            r@.anomalies,
            ctx@.env.offset_base as int,
            ctx@.env.offset_base + bytes@.len(),
        ),
        offsets_in_order(ctx@.anomalies) && (forall|i: int|
            0 <= i < ctx@.anomalies.len() ==> #[trigger] ctx@.anomalies[i].offset
                <= ctx@.env.offset_base) ==> offsets_in_order(r@.anomalies),
{
    let ghost start = ctx@;
    let mut ctx = ctx;
    if let Some(looks_like) = looks_like_non_protobuf(bytes) {
        ctx.report(AnomalyKind::NotProtobuf { looks_like }, 0);
    }
    let ghost mid = ctx@.anomalies;
    let message = decode_body::<FeedMessage>(bytes, &mut ctx);
    let ghost base = start.env.offset_base as int;
    proof {
        assert(appended_in_order(start.anomalies, mid, base, base));
        assert(appended_in_order(start.anomalies, ctx@.anomalies, base, base + bytes@.len())) by {
            assert forall|i: int, j: int|
                start.anomalies.len() <= i <= j < ctx@.anomalies.len() implies #[trigger] ctx@.anomalies[i].offset
                    <= #[trigger] ctx@.anomalies[j].offset by {
                if i < mid.len() {
                    assert(ctx@.anomalies[i] == mid[i]);
                    if j < mid.len() {
                        assert(ctx@.anomalies[j] == mid[j]);
                    }
                }
            }
            assert forall|i: int| start.anomalies.len() <= i < ctx@.anomalies.len() implies base
                <= #[trigger] ctx@.anomalies[i].offset <= base + bytes@.len() by {
                if i < mid.len() {
                    assert(ctx@.anomalies[i] == mid[i]);
                }
            }
        }
        if offsets_in_order(start.anomalies) && (forall|i: int|
            0 <= i < start.anomalies.len() ==> #[trigger] start.anomalies[i].offset <= base) {
            lemma_append_keeps_order(start.anomalies, ctx@.anomalies, 0, base, base + bytes@.len());
        }
    }
    DecodedFeed { message, anomalies: ctx.into_anomalies() }
}

/// The same bytes always give the same model and the same anomalies, in the
/// same order.
pub proof fn law_decoding_is_deterministic(a: Seq<u8>, b: Seq<u8>)
    requires
        a == b,
    ensures
        spec_decode_feed(a) == spec_decode_feed(b),
{
}

/// A fresh context (what `DecodeCtx::new` gives) and one given the default cap
/// explicitly (`with_max_depth(DEFAULT_MAX_DEPTH)` on it) decode every payload
/// alike, and as [`decode_feed_message`] does.
pub proof fn law_default_cap_is_the_fresh_context(bytes: Seq<u8>, fresh: CtxView, capped: CtxView)
    requires
        fresh.env == (Env {
            path: Seq::empty(),
            depth: 0,
            max_depth: DEFAULT_MAX_DEPTH,
            offset_base: 0,
        }),
        fresh.anomalies == Seq::<AnomalyView>::empty(),
        capped.env == (Env { max_depth: DEFAULT_MAX_DEPTH, ..fresh.env }),
        capped.anomalies == fresh.anomalies,
    ensures
        spec_decode_feed_with(bytes, fresh) == spec_decode_feed(bytes),
        spec_decode_feed_with(bytes, capped) == spec_decode_feed(bytes),
{
    assert(fresh == CtxView { env: root_env(DEFAULT_MAX_DEPTH), anomalies: Seq::empty() });
    assert(capped == fresh);
}

} // verus!
