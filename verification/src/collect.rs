//! The media collector: which segments of a message name media to fetch, and
//! how the addresses of uploaded files are asked for.

use vstd::prelude::*;
use vstd::string::*;
use crate::document::{dig, document_of, parse, text_of, Json};
use crate::event::{MessageEvent, MessageView, Segment, SegmentView};
use crate::session::Session;
use crate::text::{decimal, push_decimal};

verus! {

/// A piece of media to download: its id and its address.
#[derive(Debug, Clone, PartialEq, Eq)]
pub struct MediaItem {
    pub id: String,
    pub url: String,
}

/// What a segment asks for: media whose address is known, or a file of a
/// group whose address has to be looked up first.
#[derive(Debug, Clone, PartialEq, Eq)]
pub enum Wanted {
    Ready(MediaItem),
    Lookup { group: u64, file: String },
}

/// The result of walking over a message.
#[derive(Debug, Clone, PartialEq, Eq)]
pub struct Scan {
    /// Message id and sending time of the last `Source` segment, if there is one.
    pub source: Option<(u64, i64)>,
    /// What the segments ask for, in their order.
    pub wanted: Vec<Wanted>,
}

pub struct ItemView {
    pub id: Seq<char>,
    pub url: Seq<char>,
}

pub enum WantedView {
    Ready(ItemView),
    Lookup { group: u64, file: Seq<char> },
}

impl View for MediaItem {
    type V = ItemView;

    open spec fn view(&self) -> ItemView {
        ItemView { id: self.id@, url: self.url@ }
    }
}

impl View for Wanted {
    type V = WantedView;

    open spec fn view(&self) -> WantedView {
        match *self {
            Wanted::Ready(item) => WantedView::Ready(item@),
            Wanted::Lookup { group, file } => WantedView::Lookup { group, file: file@ },
        }
    }
}

/// The views of a list of wanted media.
pub open spec fn wanted_views(wanted: Seq<Wanted>) -> Seq<WantedView> {
    wanted.map_values(|w: Wanted| w@)
}

/// The views of a list of media items.
pub open spec fn item_views(items: Seq<MediaItem>) -> Seq<ItemView> {
    items.map_values(|m: MediaItem| m@)
}

/// What one segment contributes, for a message in `group` (absent for a
/// direct message) and the one group `allow` that files are fetched for.
/// An image counts unless the message is in another group than `allow`; a
/// flash image always counts; a file counts only inside `allow`.
pub open spec fn contribution(segment: SegmentView, group: Option<u64>, allow: u64) -> Seq<
    WantedView,
> {
    match segment {
        SegmentView::Image { id, url } => if group is Some && group != Some(allow) {
            Seq::empty()
        } else {
            seq![WantedView::Ready(ItemView { id, url })]
        },
        SegmentView::FlashImage { id, url } => seq![WantedView::Ready(ItemView { id, url })],
        SegmentView::File { id } => if group == Some(allow) {
            seq![WantedView::Lookup { group: allow, file: id }]
        } else {
            Seq::empty()
        },
        _ => Seq::empty(),
    }
}

/// What a whole message asks for: the contributions of its segments, in order.
pub open spec fn wanted_of(segments: Seq<SegmentView>, group: Option<u64>, allow: u64) -> Seq<
    WantedView,
>
    decreases segments.len(),
{
    if segments.len() == 0 {
        Seq::empty()
    } else {
        wanted_of(segments.drop_last(), group, allow) + contribution(
            segments.last(),
            group,
            allow,
        )
    }
}

/// Message id and sending time as the last `Source` segment gives them.
pub open spec fn source_of(segments: Seq<SegmentView>) -> Option<(u64, i64)>
    decreases segments.len(),
{
    if segments.len() == 0 {
        None
    } else {
        match segments.last() {
            SegmentView::Source { message, time } => Some((message, time)),
            _ => source_of(segments.drop_last()),
        }
    }
}

/// The id of the group that a message was sent in.
pub open spec fn group_id(message: MessageView) -> Option<u64> {
    match message.group {
        Some(g) => Some(g.id),
        None => None,
    }
}

/// The id of the group that a message was sent in, absent for a direct message.
pub fn group_of_message(message: &MessageEvent) -> (r: Option<u64>)
    ensures
        r == group_id(message@),
{
    match &message.group {
        Some(g) => Some(g.id),
        None => None,
    }
}

/// Walks over the segments of a message, in their order, and lists what they
/// ask for.
pub fn scan(message: &MessageEvent, allow: u64) -> (r: Scan)
    ensures
        r.source == source_of(message@.segments),
        wanted_views(r.wanted@) == wanted_of(message@.segments, group_id(message@), allow),
{
    let group = group_of_message(message);
    let outside = group.is_some() && group != Some(allow);
    let inside = group == Some(allow);
    let mut source: Option<(u64, i64)> = None;
    let mut wanted: Vec<Wanted> = Vec::new();
    let ghost segments = message@.segments;
    let mut i: usize = 0;
    proof {
        assert(segments.take(0) =~= Seq::<SegmentView>::empty());
        assert(wanted_views(wanted@) =~= Seq::<WantedView>::empty());
    }
    while i < message.segments.len()
        invariant
            i <= message.segments.len(),
            segments == message@.segments,
            segments.len() == message.segments@.len(),
            group == group_id(message@),
            outside == (group is Some && group != Some(allow)),
            inside == (group == Some(allow)),
            source == source_of(segments.take(i as int)),
            wanted_views(wanted@) == wanted_of(segments.take(i as int), group, allow),
        decreases message.segments.len() - i,
    {
        let ghost before = wanted_views(wanted@);
        proof {
            assert(segments.take(i as int + 1).drop_last() =~= segments.take(i as int));
            assert(segments.take(i as int + 1).last() == message.segments@[i as int]@);
        }
        match &message.segments[i] {
            Segment::Source { message: number, time } => {
                source = Some((*number, *time));
            },
            Segment::Image { id, url } => {
                if !outside {
                    wanted.push(Wanted::Ready(MediaItem { id: id.clone(), url: url.clone() }));
                }
            },
            Segment::FlashImage { id, url } => {
                wanted.push(Wanted::Ready(MediaItem { id: id.clone(), url: url.clone() }));
            },
            Segment::File { id } => {
                if inside {
                    wanted.push(Wanted::Lookup { group: allow, file: id.clone() });
                }
            },
            Segment::Other => {},
        }
        proof {
            assert(wanted_views(wanted@) =~= before + contribution(
                message.segments@[i as int]@,
                group,
                allow,
            ));
        }
        i += 1;
    }
    proof {
        assert(segments.take(i as int) =~= segments);
    }
    Scan { source, wanted }
}

/// What becomes of one wanted piece once the lookup, where it needed one, has
/// been answered: media with a known address stays as it is, a file takes the
/// address that was found, and a file without an answer is left out.
pub open spec fn resolved(wanted: WantedView, answer: Option<Seq<char>>) -> Seq<ItemView> {
    match wanted {
        WantedView::Ready(item) => seq![item],
        WantedView::Lookup { group, file } => match answer {
            Some(url) => seq![ItemView { id: file, url }],
            None => Seq::empty(),
        },
    }
}

/// The answer at position `i`; a missing answer counts as a failed lookup.
pub open spec fn answer_at(answers: Seq<Option<String>>, i: int) -> Option<Seq<char>> {
    if 0 <= i < answers.len() {
        match answers[i] {
            Some(url) => Some(url@),
            None => None,
        }
    } else {
        None
    }
}

/// The media items of a scan, in its order, given the answers to its lookups:
/// `answers[i]` belongs to `wanted[i]`.
pub open spec fn settled(wanted: Seq<WantedView>, answers: Seq<Option<String>>) -> Seq<ItemView>
    decreases wanted.len(),
{
    if wanted.len() == 0 {
        Seq::empty()
    } else {
        settled(wanted.drop_last(), answers) + resolved(
            wanted.last(),
            answer_at(answers, wanted.len() - 1),
        )
    }
}

/// Turns what a scan asked for into the list of media to download.
pub fn settle(wanted: &Vec<Wanted>, answers: &Vec<Option<String>>) -> (items: Vec<MediaItem>)
    ensures
        item_views(items@) == settled(wanted_views(wanted@), answers@),
{
    let mut items: Vec<MediaItem> = Vec::new();
    let ghost all = wanted_views(wanted@);
    let mut i: usize = 0;
    proof {
        assert(all.take(0) =~= Seq::<WantedView>::empty());
        assert(item_views(items@) =~= Seq::<ItemView>::empty());
    }
    while i < wanted.len()
        invariant
            i <= wanted.len(),
            all == wanted_views(wanted@),
            item_views(items@) == settled(all.take(i as int), answers@),
        decreases wanted.len() - i,
    {
        let ghost before = item_views(items@);
        proof {
            assert(all.take(i as int + 1).drop_last() =~= all.take(i as int));
            assert(all.take(i as int + 1).last() == wanted@[i as int]@);
        }
        match &wanted[i] {
            Wanted::Ready(item) => {
                items.push(MediaItem { id: item.id.clone(), url: item.url.clone() });
            },
            Wanted::Lookup { group, file } => {
                if i < answers.len() {
                    match &answers[i] {
                        Some(url) => {
                            items.push(MediaItem { id: file.clone(), url: url.clone() });
                        },
                        None => {},
                    }
                }
            },
        }
        proof {
            assert(item_views(items@) =~= before + resolved(
                wanted@[i as int]@,
                answer_at(answers@, i as int),
            ));
        }
        i += 1;
    }
    proof {
        assert(all.take(i as int) =~= all);
    }
    items
}

/// The address under which the gateway `host` tells where a file of a group
/// can be downloaded.
pub open spec fn file_info_address(
    host: Seq<char>,
    token: Seq<char>,
    group: u64,
    file: Seq<char>,
) -> Seq<char> {
    "http://"@ + host + "/file/info?sessionKey="@ + token + "&group="@ + decimal(group as nat)
        + "&id="@ + file + "&withDownloadInfo=true"@
}

/// Builds the address of the file lookup.
pub fn file_info_url(host: &str, token: &str, group: u64, file: &str) -> (url: String)
    ensures
        url@ == file_info_address(host@, token@, group, file@),
{
    let mut url = String::new();
    url.append("http://");
    url.append(host);
    url.append("/file/info?sessionKey=");
    url.append(token);
    url.append("&group=");
    push_decimal(&mut url, group);
    url.append("&id=");
    url.append(file);
    url.append("&withDownloadInfo=true");
    proof {
        assert(url@ =~= file_info_address(host@, token@, group, file@));
    }
    url
}

/// The address to ask for what `wanted` needs: `None` where it needs no
/// lookup, and while the session holds no token, since nothing can be asked
/// without one.
pub fn lookup_url(host: &str, session: &Session, wanted: &Wanted) -> (r: Option<String>)
    ensures
        r.is_some() == (wanted@ is Lookup && session@ is Some),
        r matches Some(url) ==> url@ == file_info_address(
            host@,
            session@.unwrap(),
            wanted@->Lookup_group,
            wanted@->Lookup_file,
        ),
{
    match wanted {
        Wanted::Lookup { group, file } => match session.token() {
            Some(token) => Some(file_info_url(host, token.as_str(), *group, file.as_str())),
            None => None,
        },
        Wanted::Ready(_) => None,
    }
}

/// The download address in the answer to a file lookup: the string at
/// `data.downloadInfo.url`.
pub open spec fn download_url_of(doc: Json) -> Option<Seq<char>> {
    doc.member("data"@).member("downloadInfo"@).member("url"@).text()
}

/// The download address in the text of an answer to a file lookup.
pub open spec fn download_url_in(text: Seq<char>) -> Option<Seq<char>> {
    match document_of(text) {
        Some(doc) => download_url_of(doc),
        None => None,
    }
}

/// Reads the download address out of the answer to a file lookup.
pub fn download_url(doc: &Json) -> (r: Option<String>)
    ensures
        r.is_some() == download_url_of(*doc).is_some(),
        r matches Some(url) ==> download_url_of(*doc) == Some(url@),
{
    match text_of(dig(dig(doc.get("data"), "downloadInfo"), "url")) {
        Some(url) => Some(url.clone()),
        None => None,
    }
}

/// Parses the answer to a file lookup and reads the download address out of
/// it. An answer that cannot be parsed holds no address.
pub fn decode_download_url(text: &str) -> (r: Option<String>)
    ensures
        r.is_some() == download_url_in(text@).is_some(),
        r matches Some(url) ==> download_url_in(text@) == Some(url@),
{
    match parse(text) {
        Some(doc) => download_url(&doc),
        None => None,
    }
}

/// What two runs of segments ask for, one after the other, is what the first
/// asks for followed by what the second asks for.
pub proof fn lemma_wanted_concat(
    a: Seq<SegmentView>,
    b: Seq<SegmentView>,
    group: Option<u64>,
    allow: u64,
)
    ensures
        wanted_of(a + b, group, allow) == wanted_of(a, group, allow) + wanted_of(b, group, allow),
    decreases b.len(),
{
    if b.len() == 0 {
        assert(a + b =~= a);
        assert(wanted_of(a, group, allow) + wanted_of(b, group, allow) =~= wanted_of(
            a,
            group,
            allow,
        ));
    } else {
        lemma_wanted_concat(a, b.drop_last(), group, allow);
        assert((a + b).drop_last() =~= a + b.drop_last());
        assert((a + b).last() == b.last());
        assert(wanted_of(a + b, group, allow) =~= wanted_of(a, group, allow) + wanted_of(
            b,
            group,
            allow,
        ));
    }
}

/// What a message asks for, split at the segment `i`: what the segments
/// before it ask for, then its own contribution, then what the segments after
/// it ask for.
pub proof fn lemma_wanted_split(segments: Seq<SegmentView>, i: int, group: Option<u64>, allow: u64)
    requires
        0 <= i < segments.len(),
    ensures
        wanted_of(segments, group, allow) == wanted_of(segments.take(i), group, allow)
            + contribution(segments[i], group, allow) + wanted_of(
            segments.skip(i + 1),
            group,
            allow,
        ),
{
    let one = seq![segments[i]];
    assert(segments =~= segments.take(i) + one + segments.skip(i + 1));
    lemma_wanted_concat(segments.take(i) + one, segments.skip(i + 1), group, allow);
    lemma_wanted_concat(segments.take(i), one, group, allow);
    assert(one.drop_last() =~= Seq::<SegmentView>::empty());
    assert(one.last() == segments[i]);
    assert(wanted_of(one.drop_last(), group, allow) =~= Seq::<WantedView>::empty());
    assert(wanted_of(one, group, allow) =~= contribution(segments[i], group, allow));
}

/// An image in a group other than the allowed one asks for nothing: the
/// message asks for exactly what it would ask for without that segment.
pub proof fn law_image_outside_allowed_group(
    segments: Seq<SegmentView>,
    i: int,
    group: u64,
    allow: u64,
)
    requires
        0 <= i < segments.len(),
        segments[i] is Image,
        group != allow,
    ensures
        contribution(segments[i], Some(group), allow) == Seq::<WantedView>::empty(),
        wanted_of(segments, Some(group), allow) == wanted_of(
            segments.remove(i),
            Some(group),
            allow,
        ),
{
    lemma_wanted_split(segments, i, Some(group), allow);
    lemma_wanted_concat(segments.take(i), segments.skip(i + 1), Some(group), allow);
    assert(segments.remove(i) =~= segments.take(i) + segments.skip(i + 1));
    assert(wanted_of(segments, Some(group), allow) =~= wanted_of(
        segments.remove(i),
        Some(group),
        allow,
    ));
}

/// A flash image asks for its media whatever the group: the message asks for
/// what stands before the segment, then for this image, then for the rest.
pub proof fn law_flash_image_always_wanted(
    segments: Seq<SegmentView>,
    i: int,
    group: Option<u64>,
    allow: u64,
)
    requires
        0 <= i < segments.len(),
        segments[i] is FlashImage,
    ensures
        contribution(segments[i], group, allow) == seq![
            WantedView::Ready(
                ItemView { id: segments[i]->FlashImage_id, url: segments[i]->FlashImage_url },
            ),
        ],
        wanted_of(segments, group, allow) == wanted_of(segments.take(i), group, allow).push(
            WantedView::Ready(
                ItemView { id: segments[i]->FlashImage_id, url: segments[i]->FlashImage_url },
            ),
        ) + wanted_of(segments.skip(i + 1), group, allow),
{
    lemma_wanted_split(segments, i, group, allow);
    let item = WantedView::Ready(
        ItemView { id: segments[i]->FlashImage_id, url: segments[i]->FlashImage_url },
    );
    assert(wanted_of(segments.take(i), group, allow) + seq![item] =~= wanted_of(
        segments.take(i),
        group,
        allow,
    ).push(item));
}

/// A direct message never needs a lookup: nothing that it asks for is a file
/// of a group.
pub proof fn law_direct_message_needs_no_lookup(segments: Seq<SegmentView>, allow: u64)
    ensures
        forall|k: int|
            0 <= k < wanted_of(segments, None, allow).len() ==> (#[trigger] wanted_of(
                segments,
                None,
                allow,
            )[k]) is Ready,
    decreases segments.len(),
{
    if segments.len() > 0 {
        law_direct_message_needs_no_lookup(segments.drop_last(), allow);
    }
}

/// A file in a direct message asks for nothing: the message asks for exactly
/// what it would ask for without that segment.
pub proof fn law_file_in_direct_message(segments: Seq<SegmentView>, i: int, allow: u64)
    requires
        0 <= i < segments.len(),
        segments[i] is File,
    ensures
        contribution(segments[i], None, allow) == Seq::<WantedView>::empty(),
        wanted_of(segments, None, allow) == wanted_of(segments.remove(i), None, allow),
{
    lemma_wanted_split(segments, i, None, allow);
    lemma_wanted_concat(segments.take(i), segments.skip(i + 1), None, allow);
    assert(segments.remove(i) =~= segments.take(i) + segments.skip(i + 1));
    assert(wanted_of(segments, None, allow) =~= wanted_of(segments.remove(i), None, allow));
}

} // verus!
