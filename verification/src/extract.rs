use vstd::prelude::*;
use vstd::string::StringExecFns;
use crate::context::Ctx;
use crate::context::RootV;
use crate::context::RootVal;
use crate::context::Scal;
use crate::context::ScalV;
use crate::context::StreamCtx;
use crate::context::entries_view;
use crate::context::push_entry;
use crate::context::push_rational;
use crate::context::push_root;
use crate::context::rational_forms;
use crate::context::root_view;
use crate::context::find_last;
use crate::context::lemma_find_last_concat_miss;
use crate::context::lemma_find_last_at;
use crate::decimal::rat_str;
use crate::datetime::normalize_datetime;
use crate::datetime::rfc3339_ok;
use crate::datetime::strftime_ok;
use crate::errors::Error;
use crate::meta::AudioMeta;
use crate::meta::ContainerMeta;
use crate::meta::StreamDetail;
use crate::meta::StreamMeta;
use crate::meta::StreamProbe;
use crate::meta::VideoMeta;
use crate::meta::medium_label;
use crate::meta::medium_name;

verus! {

/// The generic entries of one stream, in the order they are laid down.
pub open spec fn stream_base(sm: StreamMeta) -> Seq<(Seq<char>, ScalV)> {
    seq![("index"@, ScalV::VUInt(sm.index as int))]
        + rational_forms("time_base"@, sm.time_base.num as int, sm.time_base.den as int)
        + seq![
        ("start_time"@, ScalV::VInt(sm.start_time as int)),
        ("duration_stream_timebase"@, ScalV::VInt(sm.duration as int)),
        (
            "duration_in_sec"@,
            ScalV::VScaled(sm.duration as int, sm.time_base.num as int, sm.time_base.den as int),
        ),
        ("frames"@, ScalV::VInt(sm.frames as int)),
        ("disposition"@, ScalV::VStr(sm.disposition@)),
        ("discard"@, ScalV::VStr(sm.discard@)),
    ] + rational_forms("rate"@, sm.rate.num as int, sm.rate.den as int) + seq![
        ("codec_medium"@, ScalV::VStr(medium_name(sm.medium))),
        ("codec"@, ScalV::VStr(sm.codec_name@)),
    ]
}

/// The entries an opened video decoder adds to its stream.
pub open spec fn video_entries(v: VideoMeta) -> Seq<(Seq<char>, ScalV)> {
    seq![
        ("bit_rate"@, ScalV::VUInt(v.bit_rate as int)),
        ("max_bit_rate"@, ScalV::VUInt(v.max_bit_rate as int)),
        ("delay"@, ScalV::VUInt(v.delay as int)),
        ("width"@, ScalV::VUInt(v.width as int)),
        ("height"@, ScalV::VUInt(v.height as int)),
        ("format"@, ScalV::VStr(v.pixel_format@)),
        ("has_b_frames"@, ScalV::VBool(v.has_b_frames)),
    ] + rational_forms("aspect_ratio"@, v.aspect_ratio.num as int, v.aspect_ratio.den as int)
        + seq![
        ("color_space"@, ScalV::VStr(v.color_space@)),
        ("color_range"@, ScalV::VStr(v.color_range@)),
        ("color_primaries"@, ScalV::VStr(v.color_primaries@)),
        ("color_transfer_characteristic"@, ScalV::VStr(v.color_transfer@)),
        ("chroma_location"@, ScalV::VStr(v.chroma_location@)),
        ("references"@, ScalV::VUInt(v.references as int)),
        ("intra_dc_precision"@, ScalV::VUInt(v.intra_dc_precision as int)),
    ]
}

/// The entries an opened audio decoder adds to its stream.  `rate` and
/// `frames` shadow the generic entries of the same name, as repeated
/// insertion into the mapping would.
pub open spec fn audio_entries(a: AudioMeta) -> Seq<(Seq<char>, ScalV)> {
    seq![
        ("bit_rate"@, ScalV::VUInt(a.bit_rate as int)),
        ("max_bit_rate"@, ScalV::VUInt(a.max_bit_rate as int)),
        ("delay"@, ScalV::VUInt(a.delay as int)),
        ("rate"@, ScalV::VUInt(a.rate as int)),
        ("channels"@, ScalV::VUInt(a.channels as int)),
        ("format"@, ScalV::VStr(a.sample_format@)),
        ("frames"@, ScalV::VUInt(a.frames as int)),
        ("align"@, ScalV::VUInt(a.align as int)),
        ("channel_layout"@, ScalV::VStr(a.channel_layout@)),
    ]
}

/// Every entry of one stream's mapping.
pub open spec fn stream_entries(sm: StreamMeta) -> Seq<(Seq<char>, ScalV)> {
    stream_base(sm) + match sm.detail {
        StreamDetail::Video(v) => video_entries(v),
        StreamDetail::Audio(a) => audio_entries(a),
        StreamDetail::Bare => Seq::empty(),
    }
}

/// Builds the per-stream mapping of the context from one stream's
/// metadata: the generic fields, then whatever its decoder reported.
pub fn build_stream(sm: &StreamMeta) -> (r: StreamCtx)
    ensures
        r@ == stream_entries(*sm),
{
    let mut e: Vec<(String, Scal)> = Vec::new();
    push_entry(&mut e, String::from_str("index"), Scal::UInt(sm.index as u64));
    push_rational(&mut e, "time_base", sm.time_base.num, sm.time_base.den);
    push_entry(&mut e, String::from_str("start_time"), Scal::Int(sm.start_time));
    push_entry(&mut e, String::from_str("duration_stream_timebase"), Scal::Int(sm.duration));
    push_entry(
        &mut e,
        String::from_str("duration_in_sec"),
        Scal::Scaled(sm.duration, sm.time_base.num, sm.time_base.den),
    );
    push_entry(&mut e, String::from_str("frames"), Scal::Int(sm.frames));
    push_entry(&mut e, String::from_str("disposition"), Scal::Str(sm.disposition.clone()));
    push_entry(&mut e, String::from_str("discard"), Scal::Str(sm.discard.clone()));
    push_rational(&mut e, "rate", sm.rate.num, sm.rate.den);
    push_entry(&mut e, String::from_str("codec_medium"), Scal::Str(medium_label(sm.medium)));
    push_entry(&mut e, String::from_str("codec"), Scal::Str(sm.codec_name.clone()));
    proof {
        assert(entries_view(e@) =~= stream_base(*sm));
    }
    let ghost base = entries_view(e@);
    match &sm.detail {
        StreamDetail::Video(v) => {
            push_entry(&mut e, String::from_str("bit_rate"), Scal::UInt(v.bit_rate as u64));
            push_entry(&mut e, String::from_str("max_bit_rate"), Scal::UInt(v.max_bit_rate as u64));
            push_entry(&mut e, String::from_str("delay"), Scal::UInt(v.delay as u64));
            push_entry(&mut e, String::from_str("width"), Scal::UInt(v.width as u64));
            push_entry(&mut e, String::from_str("height"), Scal::UInt(v.height as u64));
            push_entry(&mut e, String::from_str("format"), Scal::Str(v.pixel_format.clone()));
            push_entry(&mut e, String::from_str("has_b_frames"), Scal::Bool(v.has_b_frames));
            push_rational(&mut e, "aspect_ratio", v.aspect_ratio.num, v.aspect_ratio.den);
            push_entry(&mut e, String::from_str("color_space"), Scal::Str(v.color_space.clone()));
            push_entry(&mut e, String::from_str("color_range"), Scal::Str(v.color_range.clone()));
            push_entry(
                &mut e,
                String::from_str("color_primaries"),
                Scal::Str(v.color_primaries.clone()),
            );
            push_entry(
                &mut e,
                String::from_str("color_transfer_characteristic"),
                Scal::Str(v.color_transfer.clone()),
            );
            push_entry(
                &mut e,
                String::from_str("chroma_location"),
                Scal::Str(v.chroma_location.clone()),
            );
            push_entry(&mut e, String::from_str("references"), Scal::UInt(v.references as u64));
            push_entry(
                &mut e,
                String::from_str("intra_dc_precision"),
                Scal::UInt(v.intra_dc_precision as u64),
            );
            proof {
                assert(entries_view(e@) =~= base + video_entries(*v));
            }
        },
        StreamDetail::Audio(a) => {
            push_entry(&mut e, String::from_str("bit_rate"), Scal::UInt(a.bit_rate as u64));
            push_entry(&mut e, String::from_str("max_bit_rate"), Scal::UInt(a.max_bit_rate as u64));
            push_entry(&mut e, String::from_str("delay"), Scal::UInt(a.delay as u64));
            push_entry(&mut e, String::from_str("rate"), Scal::UInt(a.rate as u64));
            push_entry(&mut e, String::from_str("channels"), Scal::UInt(a.channels as u64));
            push_entry(&mut e, String::from_str("format"), Scal::Str(a.sample_format.clone()));
            push_entry(&mut e, String::from_str("frames"), Scal::UInt(a.frames as u64));
            push_entry(&mut e, String::from_str("align"), Scal::UInt(a.align as u64));
            push_entry(
                &mut e,
                String::from_str("channel_layout"),
                Scal::Str(a.channel_layout.clone()),
            );
            proof {
                assert(entries_view(e@) =~= base + audio_entries(*a));
            }
        },
        StreamDetail::Bare => {
            proof {
                assert(entries_view(e@) =~= base + Seq::<(Seq<char>, ScalV)>::empty());
            }
        },
    }
    StreamCtx { entries: e }
}

/// Whether a tag key is the creation-timestamp key, the one tag whose
/// value is normalized.
pub open spec fn is_ct_key(k: Seq<char>) -> bool {
    k == "creation_time"@
}

/// How many creation-timestamp tags the list holds.
pub open spec fn ct_count(tags: Seq<(String, String)>) -> nat
    decreases tags.len(),
{
    if tags.len() == 0 {
        0
    } else {
        ct_count(tags.drop_last()) + if is_ct_key(tags.last().0@) {
            1nat
        } else {
            0nat
        }
    }
}

pub open spec fn strs_view(v: Seq<String>) -> Seq<Seq<char>> {
    v.map_values(|s: String| s@)
}

/// Whether every creation-timestamp tag can be normalized: its value
/// parses and the output pattern is valid.
pub open spec fn tags_datetime_ok(tags: Seq<(String, String)>, fmt: Seq<char>) -> bool {
    forall|j: int|
        0 <= j < tags.len() && is_ct_key((#[trigger] tags[j]).0@) ==> rfc3339_ok(tags[j].1@)
            && strftime_ok(fmt)
}

/// Whether every stream's codec probe succeeded; one failure aborts the
/// file.
pub open spec fn streams_all_probed(streams: Seq<StreamProbe>) -> bool {
    forall|j: int| 0 <= j < streams.len() ==> (#[trigger] streams[j]) is Probed
}

/// The root entries the tag loop lays down: each tag unchanged, except
/// a creation-timestamp tag, whose normalized value is stored first
/// under the alias `ct` and then under its own key.  `cts` holds the
/// normalized values, one per creation-timestamp tag, in tag order.
pub open spec fn tag_entries(tags: Seq<(String, String)>, cts: Seq<Seq<char>>) -> Seq<
    (Seq<char>, RootV),
>
    decreases tags.len(),
{
    if tags.len() == 0 {
        Seq::empty()
    } else {
        let front = tag_entries(tags.drop_last(), cts);
        let t = tags.last();
        if is_ct_key(t.0@) {
            let norm = cts[ct_count(tags.drop_last()) as int];
            front + seq![
                ("ct"@, RootV::VLeaf(ScalV::VStr(norm))),
                (t.0@, RootV::VLeaf(ScalV::VStr(norm))),
            ]
        } else {
            front + seq![(t.0@, RootV::VLeaf(ScalV::VStr(t.1@)))]
        }
    }
}

/// The mapping of each stream, in container order, for a container all
/// of whose streams were probed.
pub open spec fn stream_views(streams: Seq<StreamProbe>) -> Seq<Seq<(Seq<char>, ScalV)>> {
    streams.map_values(
        |p: StreamProbe|
            match p {
                StreamProbe::Probed(sm) => stream_entries(sm),
                StreamProbe::CodecFailed(_) => Seq::empty(),
            },
    )
}

/// The two root entries a best-stream pick adds: the one-letter and the
/// full-word alias, both holding that stream's own mapping.  A pick
/// outside the stream list adds nothing.
pub open spec fn alias_entries(
    short: Seq<char>,
    long: Seq<char>,
    best: Option<usize>,
    views: Seq<Seq<(Seq<char>, ScalV)>>,
) -> Seq<(Seq<char>, RootV)> {
    match best {
        Some(bi) => if (bi as int) < views.len() {
            seq![(short, RootV::VOne(views[bi as int])), (long, RootV::VOne(views[bi as int]))]
        } else {
            Seq::empty()
        },
        None => Seq::empty(),
    }
}

/// The three root entries naming the source file.
pub open spec fn filename_entries(name: Seq<char>) -> Seq<(Seq<char>, RootV)> {
    seq![
        ("org"@, RootV::VLeaf(ScalV::VStr(name))),
        ("original"@, RootV::VLeaf(ScalV::VStr(name))),
        ("original_filename"@, RootV::VLeaf(ScalV::VStr(name))),
    ]
}

/// The whole context of one file: the container tags, the best-stream
/// aliases, the stream list, and the source filename.
pub open spec fn assemble_spec(
    meta: ContainerMeta,
    cts: Seq<Seq<char>>,
    filename: Seq<char>,
) -> Seq<(Seq<char>, RootV)> {
    tag_entries(meta.tags@, cts) + alias_entries(
        "v"@,
        "video"@,
        meta.best_video,
        stream_views(meta.streams@),
    ) + alias_entries("a"@, "audio"@, meta.best_audio, stream_views(meta.streams@))
        + alias_entries("s"@, "subtitle"@, meta.best_subtitle, stream_views(meta.streams@))
        + seq![("streams"@, RootV::VMany(stream_views(meta.streams@)))] + filename_entries(
        filename,
    )
}

proof fn lemma_ct_count_mono(tags: Seq<(String, String)>, i: int)
    requires
        0 <= i <= tags.len(),
    ensures
        ct_count(tags.take(i)) <= ct_count(tags),
    decreases tags.len() - i,
{
    if i < tags.len() {
        lemma_ct_count_mono(tags, i + 1);
        assert(tags.take(i + 1).drop_last() =~= tags.take(i));
    } else {
        assert(tags.take(i) =~= tags);
    }
}

fn push_alias(
    root: &mut Vec<(String, RootVal)>,
    short: &str,
    long: &str,
    best: &Option<usize>,
    streams: &Vec<StreamProbe>,
)
    requires
        streams_all_probed(streams@),
    ensures
        root_view(final(root)@) == root_view(old(root)@) + alias_entries(
            short@,
            long@,
            *best,
            stream_views(streams@),
        ),
{
    match best {
        Some(bi) => {
            if *bi < streams.len() {
                match &streams[*bi] {
                    StreamProbe::Probed(sm) => {
                        let first = build_stream(sm);
                        push_root(root, short.to_owned(), RootVal::One(first));
                        let second = build_stream(sm);
                        push_root(root, long.to_owned(), RootVal::One(second));
                        proof {
                            assert(stream_views(streams@)[*bi as int] == stream_entries(*sm));
                            assert(root_view(root@) =~= root_view(old(root)@) + alias_entries(
                                short@,
                                long@,
                                *best,
                                stream_views(streams@),
                            ));
                        }
                    },
                    StreamProbe::CodecFailed(_) => {
                        proof {
                            assert(streams@[*bi as int] is Probed);
                            assert(false);
                        }
                    },
                }
            } else {
                proof {
                    assert(root_view(root@) =~= root_view(old(root)@) + alias_entries(
                        short@,
                        long@,
                        *best,
                        stream_views(streams@),
                    ));
                }
            }
        },
        None => {
            proof {
                assert(root_view(root@) =~= root_view(old(root)@) + alias_entries(
                    short@,
                    long@,
                    *best,
                    stream_views(streams@),
                ));
            }
        },
    }
}

/// Builds the whole rendering context of one probed container.
///
/// Success is owed exactly when every creation-timestamp tag can be
/// normalized and every stream's codec probe succeeded; the first
/// failure aborts the file with its own error kind.  On success the
/// context is the assembly of the tags (with normalized timestamps),
/// the best-stream aliases, the stream list, and the filename; the
/// normalized timestamp strings depend on the machine's local
/// timezone, so they stay existentially bound.
pub fn build_context(meta: &ContainerMeta, filename: &str, fmt: &str) -> (r: Result<Ctx, Error>)
    ensures
        r is Ok <==> (tags_datetime_ok(meta.tags@, fmt@) && streams_all_probed(meta.streams@)),
        r matches Ok(c) ==> exists|cts: Seq<Seq<char>>|
            cts.len() == ct_count(meta.tags@) && c@ == assemble_spec(*meta, cts, filename@),
        !tags_datetime_ok(meta.tags@, fmt@) ==> (r matches Err(e) && (e is DatetimeParse
            || e is BadDatetimeFormat)),
        (tags_datetime_ok(meta.tags@, fmt@) && !streams_all_probed(meta.streams@)) ==> (
        r matches Err(e) && e is CodecProbe),
{
    let ct_key: String = String::from_str("creation_time");
    let tag_total = meta.tags.len();

    // Normalize every creation-timestamp tag first: the tag loop of the
    // assembly below must not fail.
    let mut cts: Vec<String> = Vec::new();
    let mut i: usize = 0;
    while i < tag_total
        invariant
            i <= tag_total,
            tag_total == meta.tags@.len(),
            ct_key@ == "creation_time"@,
            strs_view(cts@).len() == ct_count(meta.tags@.take(i as int)),
            forall|j: int|
                0 <= j < i && is_ct_key((#[trigger] meta.tags@[j]).0@) ==> rfc3339_ok(
                    meta.tags@[j].1@,
                ) && strftime_ok(fmt@),
        decreases tag_total - i,
    {
        proof {
            assert(meta.tags@.take(i + 1).drop_last() =~= meta.tags@.take(i as int));
            assert(meta.tags@.take(i + 1).last() == meta.tags@[i as int]);
        }
        if meta.tags[i].0 == ct_key {
            let raw = Scal::Str(meta.tags[i].1.clone());
            match normalize_datetime(&raw, fmt) {
                Ok(s) => {
                    cts.push(s);
                },
                Err(e) => {
                    proof {
                        assert(is_ct_key(meta.tags@[i as int].0@));
                        assert(!(rfc3339_ok(meta.tags@[i as int].1@) && strftime_ok(fmt@)));
                        assert(!tags_datetime_ok(meta.tags@, fmt@));
                    }
                    return Err(e);
                },
            }
        }
        i = i + 1;
    }
    proof {
        assert(meta.tags@.take(tag_total as int) =~= meta.tags@);
        assert(tags_datetime_ok(meta.tags@, fmt@));
    }

    // Probe outcome of every stream: build each mapping, or abort the
    // file on the first failed codec probe.
    let stream_total = meta.streams.len();
    let mut stream_ctxs: Vec<StreamCtx> = Vec::new();
    let mut k: usize = 0;
    while k < stream_total
        invariant
            k <= stream_total,
            stream_total == meta.streams@.len(),
            tags_datetime_ok(meta.tags@, fmt@),
            strs_view(cts@).len() == ct_count(meta.tags@),
            ct_key@ == "creation_time"@,
            forall|j: int| 0 <= j < k ==> (#[trigger] meta.streams@[j]) is Probed,
            forall|j: int|
                0 <= j < k ==> (#[trigger] stream_ctxs@[j])@ == stream_views(meta.streams@)[j],
            stream_ctxs@.len() == k,
        decreases stream_total - k,
    {
        let ghost pre = stream_ctxs@;
        match &meta.streams[k] {
            StreamProbe::Probed(sm) => {
                let sc = build_stream(sm);
                let ghost scv = sc@;
                stream_ctxs.push(sc);
                proof {
                    assert(meta.streams@[k as int] == StreamProbe::Probed(*sm));
                    assert(stream_views(meta.streams@)[k as int] == stream_entries(*sm));
                    assert(stream_ctxs@[k as int]@ == scv);
                }
            },
            StreamProbe::CodecFailed(msg) => {
                proof {
                    assert(!(meta.streams@[k as int] is Probed));
                    assert(!streams_all_probed(meta.streams@));
                }
                return Err(Error::CodecProbe(msg.clone()));
            },
        }
        k = k + 1;
    }
    proof {
        assert(streams_all_probed(meta.streams@));
        assert(stream_ctxs@.map_values(|s: StreamCtx| s@) =~= stream_views(meta.streams@));
    }

    // The root mapping: tags first, creation timestamps normalized.
    let mut root: Vec<(String, RootVal)> = Vec::new();
    let mut t: usize = 0;
    let mut next_ct: usize = 0;
    while t < tag_total
        invariant
            t <= tag_total,
            tag_total == meta.tags@.len(),
            ct_key@ == "creation_time"@,
            tags_datetime_ok(meta.tags@, fmt@),
            streams_all_probed(meta.streams@),
            strs_view(cts@).len() == ct_count(meta.tags@),
            stream_ctxs@.map_values(|s: StreamCtx| s@) == stream_views(meta.streams@),
            stream_ctxs@.len() == meta.streams@.len(),
            next_ct == ct_count(meta.tags@.take(t as int)),
            root_view(root@) == tag_entries(meta.tags@.take(t as int), strs_view(cts@)),
        decreases tag_total - t,
    {
        proof {
            assert(meta.tags@.take(t + 1).drop_last() =~= meta.tags@.take(t as int));
            assert(meta.tags@.take(t + 1).last() == meta.tags@[t as int]);
            lemma_ct_count_mono(meta.tags@, t + 1);
        }
        if meta.tags[t].0 == ct_key {
            proof {
                assert(ct_count(meta.tags@.take(t + 1)) == next_ct + 1);
                assert(next_ct < strs_view(cts@).len());
            }
            let norm = cts[next_ct].clone();
            push_root(&mut root, String::from_str("ct"), RootVal::Leaf(Scal::Str(norm.clone())));
            push_root(&mut root, meta.tags[t].0.clone(), RootVal::Leaf(Scal::Str(norm)));
            let cts_len = cts.len();
            proof {
                assert(next_ct < cts_len);
            }
            next_ct = next_ct + 1;
        } else {
            push_root(
                &mut root,
                meta.tags[t].0.clone(),
                RootVal::Leaf(Scal::Str(meta.tags[t].1.clone())),
            );
        }
        proof {
            assert(root_view(root@) =~= tag_entries(meta.tags@.take(t + 1), strs_view(cts@)));
        }
        t = t + 1;
    }
    proof {
        assert(meta.tags@.take(tag_total as int) =~= meta.tags@);
    }

    // The best-stream aliases, then the stream list, then the filename.
    push_alias(&mut root, "v", "video", &meta.best_video, &meta.streams);
    push_alias(&mut root, "a", "audio", &meta.best_audio, &meta.streams);
    push_alias(&mut root, "s", "subtitle", &meta.best_subtitle, &meta.streams);
    push_root(&mut root, String::from_str("streams"), RootVal::Many(stream_ctxs));
    push_root(
        &mut root,
        String::from_str("org"),
        RootVal::Leaf(Scal::Str(filename.to_owned())),
    );
    push_root(
        &mut root,
        String::from_str("original"),
        RootVal::Leaf(Scal::Str(filename.to_owned())),
    );
    push_root(
        &mut root,
        String::from_str("original_filename"),
        RootVal::Leaf(Scal::Str(filename.to_owned())),
    );

    let c = Ctx { entries: root };
    proof {
        assert(c@ =~= assemble_spec(*meta, strs_view(cts@), filename@));
        assert(strs_view(cts@).len() == ct_count(meta.tags@) && c@ == assemble_spec(
            *meta,
            strs_view(cts@),
            filename@,
        ));
    }
    Ok(c)
}

/// No entry of an alias segment carries a key that differs from both
/// alias names.
proof fn lemma_alias_keys(
    short: Seq<char>,
    long: Seq<char>,
    best: Option<usize>,
    views: Seq<Seq<(Seq<char>, ScalV)>>,
    key: Seq<char>,
)
    requires
        key != short,
        key != long,
    ensures
        forall|j: int|
            0 <= j < alias_entries(short, long, best, views).len() ==> (#[trigger] alias_entries(
                short,
                long,
                best,
                views,
            )[j]).0 != key,
{
}

/// The `streams` entry of an assembled context holds the mapping of
/// every stream, in container order; nothing laid down after it shares
/// its key.
pub proof fn lemma_streams_entry(meta: ContainerMeta, cts: Seq<Seq<char>>, filename: Seq<char>)
    ensures
        find_last(assemble_spec(meta, cts, filename), "streams"@) == Some(
            RootV::VMany(stream_views(meta.streams@)),
        ),
{
    reveal_strlit("streams");
    reveal_strlit("org");
    reveal_strlit("original");
    reveal_strlit("original_filename");
    let views = stream_views(meta.streams@);
    let t = tag_entries(meta.tags@, cts);
    let va = alias_entries("v"@, "video"@, meta.best_video, views);
    let aa = alias_entries("a"@, "audio"@, meta.best_audio, views);
    let sa = alias_entries("s"@, "subtitle"@, meta.best_subtitle, views);
    let st = seq![("streams"@, RootV::VMany(views))];
    let f = filename_entries(filename);
    let pre = t + va + aa + sa + st;
    assert(assemble_spec(meta, cts, filename) == pre + f);
    assert forall|j: int| 0 <= j < f.len() implies (#[trigger] f[j]).0 != "streams"@ by {
        assert(("org"@).len() == 3);
        assert(("original"@).len() == 8);
        assert(("original_filename"@).len() == 17);
        assert(("streams"@).len() == 7);
    }
    lemma_find_last_concat_miss(pre, f, "streams"@);
    assert(pre.last() == ("streams"@, RootV::VMany(views)));
    assert(find_last(pre, "streams"@) == Some(RootV::VMany(views)));
}

/// A lookup of a key that no segment after the best-video aliases
/// carries falls through to the tags and those aliases.
proof fn lemma_alias_lookup_passthrough(
    meta: ContainerMeta,
    cts: Seq<Seq<char>>,
    filename: Seq<char>,
    key: Seq<char>,
)
    requires
        key != "a"@,
        key != "audio"@,
        key != "s"@,
        key != "subtitle"@,
        key != "streams"@,
        key != "org"@,
        key != "original"@,
        key != "original_filename"@,
    ensures
        find_last(assemble_spec(meta, cts, filename), key) == find_last(
            tag_entries(meta.tags@, cts) + alias_entries(
                "v"@,
                "video"@,
                meta.best_video,
                stream_views(meta.streams@),
            ),
            key,
        ),
{
    let views = stream_views(meta.streams@);
    let t = tag_entries(meta.tags@, cts);
    let va = alias_entries("v"@, "video"@, meta.best_video, views);
    let aa = alias_entries("a"@, "audio"@, meta.best_audio, views);
    let sa = alias_entries("s"@, "subtitle"@, meta.best_subtitle, views);
    let st = seq![("streams"@, RootV::VMany(views))];
    let f = filename_entries(filename);
    assert(assemble_spec(meta, cts, filename) == t + va + aa + sa + st + f);
    assert forall|j: int| 0 <= j < f.len() implies (#[trigger] f[j]).0 != key by {
        assert(f[0].0 == "org"@);
        assert(f[1].0 == "original"@);
        assert(f[2].0 == "original_filename"@);
    }
    lemma_find_last_concat_miss(t + va + aa + sa + st, f, key);
    assert forall|j: int| 0 <= j < st.len() implies (#[trigger] st[j]).0 != key by {
        assert(st[0].0 == "streams"@);
    }
    lemma_find_last_concat_miss(t + va + aa + sa, st, key);
    lemma_alias_keys("s"@, "subtitle"@, meta.best_subtitle, views, key);
    lemma_find_last_concat_miss(t + va + aa, sa, key);
    lemma_alias_keys("a"@, "audio"@, meta.best_audio, views, key);
    lemma_find_last_concat_miss(t + va, aa, key);
}

/// The one-letter and full-word best-video aliases of an assembled
/// context hold exactly the mapping of the picked stream: each alias is
/// a projection of one entry of `streams`, not a value of its own.
pub proof fn lemma_best_video_alias(
    meta: ContainerMeta,
    cts: Seq<Seq<char>>,
    filename: Seq<char>,
    i: usize,
)
    requires
        meta.best_video == Some(i),
        (i as int) < meta.streams@.len(),
    ensures
        find_last(assemble_spec(meta, cts, filename), "v"@) == Some(
            RootV::VOne(stream_views(meta.streams@)[i as int]),
        ),
        find_last(assemble_spec(meta, cts, filename), "video"@) == Some(
            RootV::VOne(stream_views(meta.streams@)[i as int]),
        ),
{
    reveal_strlit("v");
    reveal_strlit("video");
    reveal_strlit("a");
    reveal_strlit("audio");
    reveal_strlit("s");
    reveal_strlit("subtitle");
    reveal_strlit("streams");
    reveal_strlit("org");
    reveal_strlit("original");
    reveal_strlit("original_filename");
    assert(("v"@).len() == 1 && ("video"@).len() == 5);
    assert(("a"@).len() == 1 && ("audio"@).len() == 5);
    assert(("s"@).len() == 1 && ("subtitle"@).len() == 8);
    assert(("streams"@).len() == 7);
    assert(("org"@).len() == 3 && ("original"@).len() == 8 && ("original_filename"@).len() == 17);
    assert(("v"@)[0] == 'v' && ("a"@)[0] == 'a' && ("s"@)[0] == 's');
    assert(("video"@)[0] == 'v' && ("audio"@)[0] == 'a');
    assert("v"@ != "a"@ && "v"@ != "s"@);
    assert("video"@ != "audio"@);
    let views = stream_views(meta.streams@);
    let t = tag_entries(meta.tags@, cts);
    let va = alias_entries("v"@, "video"@, meta.best_video, views);
    assert(views.len() == meta.streams@.len());
    assert(va == seq![
        ("v"@, RootV::VOne(views[i as int])),
        ("video"@, RootV::VOne(views[i as int])),
    ]);
    lemma_alias_lookup_passthrough(meta, cts, filename, "v"@);
    lemma_alias_lookup_passthrough(meta, cts, filename, "video"@);
    assert((t + va).last() == ("video"@, RootV::VOne(views[i as int])));
    assert(find_last(t + va, "video"@) == Some(RootV::VOne(views[i as int])));
    let half = t + seq![("v"@, RootV::VOne(views[i as int]))];
    assert((t + va).drop_last() =~= half);
    assert((t + va).last().0 != "v"@);
    assert(find_last(t + va, "v"@) == find_last((t + va).drop_last(), "v"@));
    assert(half.last() == ("v"@, RootV::VOne(views[i as int])));
    assert(find_last(half, "v"@) == Some(RootV::VOne(views[i as int])));
    assert(find_last((t + va).drop_last(), "v"@) == find_last(half, "v"@));
    assert(find_last(t + va, "v"@) == Some(RootV::VOne(views[i as int])));
}

/// Each rational field of a stream stands in its mapping as the three
/// contiguous forms: `time_base` and `rate` in every stream, and
/// `aspect_ratio` in a stream with an opened video decoder.  (An
/// opened audio decoder later shadows the key `rate` itself with its
/// integer sample rate, as the probing library's repeated insertion
/// does.)
#[verifier::rlimit(60)]
pub proof fn lemma_stream_rational_forms(sm: StreamMeta)
    ensures
        stream_entries(sm).subrange(1, 4) == rational_forms(
            "time_base"@,
            sm.time_base.num as int,
            sm.time_base.den as int,
        ),
        stream_entries(sm).subrange(10, 13) == rational_forms(
            "rate"@,
            sm.rate.num as int,
            sm.rate.den as int,
        ),
        sm.detail matches StreamDetail::Video(v) ==> stream_entries(sm).subrange(22, 25)
            == rational_forms(
            "aspect_ratio"@,
            v.aspect_ratio.num as int,
            v.aspect_ratio.den as int,
        ),
{
    assert(stream_entries(sm).subrange(1, 4) =~= rational_forms(
        "time_base"@,
        sm.time_base.num as int,
        sm.time_base.den as int,
    ));
    assert(stream_entries(sm).subrange(10, 13) =~= rational_forms(
        "rate"@,
        sm.rate.num as int,
        sm.rate.den as int,
    ));
    match sm.detail {
        StreamDetail::Video(v) => {
            assert(stream_entries(sm).subrange(22, 25) =~= rational_forms(
                "aspect_ratio"@,
                v.aspect_ratio.num as int,
                v.aspect_ratio.den as int,
            ));
        },
        _ => {},
    }
}

/// What a template sees of a stream's time base: looking the three
/// keys up in any stream's mapping yields the pair, the printed form
/// and the float form of the rational, whatever the stream's medium.
/// (`rate` behaves the same until an audio decoder's integer sample
/// rate shadows the key `rate` itself.)
#[verifier::rlimit(60)]
pub proof fn lemma_time_base_lookup(sm: StreamMeta)
    ensures
        find_last(stream_entries(sm), "time_base"@) == Some(
            ScalV::VPair(sm.time_base.num as int, sm.time_base.den as int),
        ),
        find_last(stream_entries(sm), "time_base_str"@) == Some(
            ScalV::VStr(rat_str(sm.time_base.num as int, sm.time_base.den as int)),
        ),
        find_last(stream_entries(sm), "time_base_float"@) == Some(
            ScalV::VRatio(sm.time_base.num as int, sm.time_base.den as int),
        ),
{
    reveal_strlit("time_base");
    reveal_strlit("time_base_str");
    reveal_strlit("time_base_float");
    reveal_strlit("_str");
    reveal_strlit("_float");
    reveal_strlit("index");
    reveal_strlit("start_time");
    reveal_strlit("duration_stream_timebase");
    reveal_strlit("duration_in_sec");
    reveal_strlit("frames");
    reveal_strlit("disposition");
    reveal_strlit("discard");
    reveal_strlit("rate");
    reveal_strlit("codec_medium");
    reveal_strlit("codec");
    reveal_strlit("bit_rate");
    reveal_strlit("max_bit_rate");
    reveal_strlit("delay");
    reveal_strlit("width");
    reveal_strlit("height");
    reveal_strlit("format");
    reveal_strlit("has_b_frames");
    reveal_strlit("aspect_ratio");
    reveal_strlit("color_space");
    reveal_strlit("color_range");
    reveal_strlit("color_primaries");
    reveal_strlit("color_transfer_characteristic");
    reveal_strlit("chroma_location");
    reveal_strlit("references");
    reveal_strlit("intra_dc_precision");
    reveal_strlit("channels");
    reveal_strlit("align");
    reveal_strlit("channel_layout");
    assert(("time_base"@ + "_str"@) =~= "time_base_str"@);
    assert(("time_base"@ + "_float"@) =~= "time_base_float"@);
    let n = sm.time_base.num as int;
    let d = sm.time_base.den as int;
    let s = stream_entries(sm);
    let base = stream_base(sm);
    assert(base.len() == 15);
    assert(base[1] == ("time_base"@, ScalV::VPair(n, d)));
    assert(base[2].0 == "time_base_str"@ && base[2].1 == ScalV::VStr(rat_str(n, d)));
    assert(base[3].0 == "time_base_float"@ && base[3].1 == ScalV::VRatio(n, d));
    assert forall|j: int| 1 < j < 15 implies (#[trigger] base[j]).0 != "time_base"@ by {}
    lemma_find_last_at(base, "time_base"@, 1);
    assert forall|j: int| 2 < j < 15 implies (#[trigger] base[j]).0 != "time_base_str"@ by {}
    lemma_find_last_at(base, "time_base_str"@, 2);
    assert forall|j: int| 3 < j < 15 implies (#[trigger] base[j]).0 != "time_base_float"@ by {
        assert(("duration_in_sec"@)[0] == 'd');
        assert(("time_base_float"@)[0] == 't');
    }
    lemma_find_last_at(base, "time_base_float"@, 3);
    match sm.detail {
        StreamDetail::Video(v) => {
            let det = video_entries(v);
            assert(s == base + det);
            assert(det.len() == 17);
            assert(("aspect_ratio"@ + "_str"@).len() == 16);
            assert(("aspect_ratio"@ + "_float"@).len() == 18);
            assert forall|j: int| 0 <= j < 17 implies (#[trigger] det[j]).0 != "time_base"@ by {}
            lemma_find_last_concat_miss(base, det, "time_base"@);
            assert forall|j: int| 0 <= j < 17 implies (#[trigger] det[j]).0
                != "time_base_str"@ by {}
            lemma_find_last_concat_miss(base, det, "time_base_str"@);
            assert forall|j: int| 0 <= j < 17 implies (#[trigger] det[j]).0
                != "time_base_float"@ by {
                assert(("time_base_float"@)[0] == 't');
                assert(("color_primaries"@)[0] == 'c');
                assert(("chroma_location"@)[0] == 'c');
            }
            lemma_find_last_concat_miss(base, det, "time_base_float"@);
        },
        StreamDetail::Audio(a) => {
            let det = audio_entries(a);
            assert(s == base + det);
            assert(det.len() == 9);
            assert forall|j: int| 0 <= j < 9 implies (#[trigger] det[j]).0 != "time_base"@ by {}
            lemma_find_last_concat_miss(base, det, "time_base"@);
            assert forall|j: int| 0 <= j < 9 implies (#[trigger] det[j]).0
                != "time_base_str"@ by {}
            lemma_find_last_concat_miss(base, det, "time_base_str"@);
            assert forall|j: int| 0 <= j < 9 implies (#[trigger] det[j]).0
                != "time_base_float"@ by {}
            lemma_find_last_concat_miss(base, det, "time_base_float"@);
        },
        StreamDetail::Bare => {
            assert(s =~= base);
        },
    }
}

/// The normalized creation timestamp is stored under both its own key
/// and the alias `ct`: wherever the tag list holds a creation-time
/// tag, the two keys resolve to the same value in the tag segment of
/// the context.  A container tag literally named `ct` would shadow the
/// alias, as insertion order demands, so such tags are left out.
pub proof fn lemma_ct_alias_matches_creation_time(
    tags: Seq<(String, String)>,
    cts: Seq<Seq<char>>,
)
    requires
        forall|j: int| 0 <= j < tags.len() ==> (#[trigger] tags[j]).0@ != "ct"@,
        exists|j: int| 0 <= j < tags.len() && is_ct_key((#[trigger] tags[j]).0@),
    ensures
        find_last(tag_entries(tags, cts), "ct"@) is Some,
        find_last(tag_entries(tags, cts), "ct"@) == find_last(
            tag_entries(tags, cts),
            "creation_time"@,
        ),
    decreases tags.len(),
{
    reveal_strlit("ct");
    reveal_strlit("creation_time");
    assert(("ct"@).len() == 2);
    assert(("creation_time"@).len() == 13);
    let e = tag_entries(tags, cts);
    let front = tags.drop_last();
    let fe = tag_entries(front, cts);
    let t = tags.last();
    if is_ct_key(t.0@) {
        let norm = cts[ct_count(front) as int];
        let two = seq![
            ("ct"@, RootV::VLeaf(ScalV::VStr(norm))),
            (t.0@, RootV::VLeaf(ScalV::VStr(norm))),
        ];
        assert(e == fe + two);
        assert(e.last() == ("creation_time"@, RootV::VLeaf(ScalV::VStr(norm))));
        assert(find_last(e, "creation_time"@) == Some(RootV::VLeaf(ScalV::VStr(norm))));
        assert(e.last().0 != "ct"@);
        let half = fe + seq![("ct"@, RootV::VLeaf(ScalV::VStr(norm)))];
        assert(e.drop_last() =~= half);
        assert(half.last() == ("ct"@, RootV::VLeaf(ScalV::VStr(norm))));
        assert(find_last(half, "ct"@) == Some(RootV::VLeaf(ScalV::VStr(norm))));
        assert(find_last(e, "ct"@) == find_last(e.drop_last(), "ct"@));
        assert(find_last(e.drop_last(), "ct"@) == find_last(half, "ct"@));
        assert(find_last(e, "ct"@) == Some(RootV::VLeaf(ScalV::VStr(norm))));
    } else {
        let w = choose|j: int| 0 <= j < tags.len() && is_ct_key((#[trigger] tags[j]).0@);
        assert(w < tags.len() - 1);
        assert(front[w] == tags[w]);
        assert(exists|j: int| 0 <= j < front.len() && is_ct_key((#[trigger] front[j]).0@));
        assert(forall|j: int| 0 <= j < front.len() ==> (#[trigger] front[j]).0@ != "ct"@);
        lemma_ct_alias_matches_creation_time(front, cts);
        let one = seq![(t.0@, RootV::VLeaf(ScalV::VStr(t.1@)))];
        assert(e == fe + one);
        assert forall|j: int| 0 <= j < one.len() implies (#[trigger] one[j]).0 != "ct"@ by {
            assert(tags[tags.len() - 1].0@ != "ct"@);
        }
        lemma_find_last_concat_miss(fe, one, "ct"@);
        assert forall|j: int| 0 <= j < one.len() implies (#[trigger] one[j]).0
            != "creation_time"@ by {}
        lemma_find_last_concat_miss(fe, one, "creation_time"@);
    }
}

} // verus!
