//! The media store: where a downloaded piece is written, and the tally of a
//! batch in which every piece fails or succeeds on its own.

use vstd::prelude::*;
use vstd::string::*;
use crate::clock::{month_stamp, offset_in_range, push_month_stamp, push_second_stamp, representable, second_stamp, zone_calendar, zone_time, CivilTime};
use crate::collect::{item_views, ItemView, MediaItem};
use crate::text::{decimal, lemma_decimal_digits, lemma_decimal_injective, lemma_digits_then_mark, push_decimal};

verus! {

/// What all pieces of one message share in their paths.
#[derive(Debug, Clone, Copy, PartialEq, Eq)]
pub struct Placement {
    /// The group of the message, `0` for a direct message.
    pub group: u64,
    pub sender: u64,
    pub message: u64,
    /// When the message was sent, in the calendar time of the program's zone.
    pub sent: CivilTime,
}

/// Where one piece goes: the directory to create and the file to write.
#[derive(Debug, Clone, PartialEq, Eq)]
pub struct Target {
    pub directory: String,
    pub path: String,
}

/// How the attempt to store one piece ended.
#[derive(Debug, Clone, Copy, PartialEq, Eq)]
pub enum Outcome {
    DownloadFailed,
    /// The content is of no known type.
    Unrecognized,
    DirectoryFailed,
    WriteFailed,
    Stored,
}

/// The file extension that `infer::get` finds for a content, `None` where it
/// knows no type for it.
pub uninterp spec fn sniffed_extension(bytes: Seq<u8>) -> Option<Seq<char>>;

/// `infer::get` followed by `Type::extension`: the extension of the type that
/// the first matching signature stands for. The signatures are fixed tables,
/// so the result is a function of the bytes and has a name.
#[verifier::external_body]
pub(crate) fn sniff(bytes: &[u8]) -> (r: Option<String>)
    ensures
        r.is_some() == sniffed_extension(bytes@).is_some(),
        r matches Some(e) ==> sniffed_extension(bytes@) == Some(e@),
{
    infer::get(bytes).map(|kind| kind.extension().to_string())
}

/// The directory of a month: `store/v2/YYYYMM`.
pub open spec fn storage_directory(sent: CivilTime) -> Seq<char> {
    "store/v2/"@ + month_stamp(sent)
}

/// What the names of all pieces of a message begin with:
/// `<group>_<sender>_<message>_<YYYYMMDDHHMMSS>_`.
pub open spec fn message_part(p: Placement) -> Seq<char> {
    decimal(p.group as nat) + "_"@ + decimal(p.sender as nat) + "_"@ + decimal(p.message as nat)
        + "_"@ + second_stamp(p.sent) + "_"@
}

/// What tells the pieces of a message apart: `<index>_<size>.<extension>`.
pub open spec fn piece_part(index: nat, size: nat, extension: Seq<char>) -> Seq<char> {
    decimal(index) + "_"@ + decimal(size) + "."@ + extension
}

/// The name of a stored file:
/// `<group>_<sender>_<message>_<YYYYMMDDHHMMSS>_<index>_<size>.<extension>`.
pub open spec fn file_name(p: Placement, index: nat, size: nat, extension: Seq<char>) -> Seq<
    char,
> {
    message_part(p) + piece_part(index, size, extension)
}

/// The path of a stored file: its month's directory, a slash, its name.
pub open spec fn storage_path(p: Placement, index: nat, size: nat, extension: Seq<char>) -> Seq<
    char,
> {
    storage_directory(p.sent) + "/"@ + file_name(p, index, size, extension)
}

/// The instant at which a message counts as sent, in seconds since the
/// epoch: the time of its source, or `fallback` for a message without one.
pub open spec fn sending_instant(source: Option<(u64, i64)>, fallback: i64) -> i64 {
    match source {
        Some(s) => s.1,
        None => fallback,
    }
}

impl Placement {
    /// The placement of a message: `group` is absent for a direct message and
    /// then counts as `0`; `source` is the message's id and sending time, and
    /// a message without one has the id `0`.
    pub fn new(group: Option<u64>, sender: u64, source: Option<(u64, i64)>, sent: CivilTime) -> (p:
        Placement)
        ensures
            p.group == (match group {
                Some(g) => g,
                None => 0,
            }),
            p.sender == sender,
            p.message == (match source {
                Some(s) => s.0,
                None => 0,
            }),
            p.sent == sent,
    {
        Placement {
            group: match group {
                Some(g) => g,
                None => 0,
            },
            sender,
            message: match source {
                Some(s) => s.0,
                None => 0,
            },
            sent,
        }
    }

    /// The placement of a message whose sending time is still in seconds
    /// since the epoch: the time of its source, or `fallback` for a message
    /// without one, is turned into the calendar time of the zone that is
    /// `offset` seconds ahead of UTC. There is a placement exactly when the
    /// offset is less than a day and the shifted instant has a calendar time.
    pub fn at(
        group: Option<u64>,
        sender: u64,
        source: Option<(u64, i64)>,
        fallback: i64,
        offset: i32,
    ) -> (r: Option<Placement>)
        ensures
            r.is_some() == (offset_in_range(offset as int) && representable(
                sending_instant(source, fallback) + offset,
            )),
            r matches Some(p) ==> p.sent.wf() && p == (Placement {
                group: match group {
                    Some(g) => g,
                    None => 0,
                },
                sender,
                message: match source {
                    Some(s) => s.0,
                    None => 0,
                },
                sent: zone_calendar(sending_instant(source, fallback) as int, offset as int),
            }),
    {
        let seconds = match source {
            Some(s) => s.1,
            None => fallback,
        };
        match zone_time(seconds, offset) {
            Some(sent) => Some(Placement::new(group, sender, source, sent)),
            None => None,
        }
    }

    /// Where the piece at position `index` of the message goes, given the
    /// size and the extension of its content.
    pub fn target(&self, index: usize, size: usize, extension: &str) -> (t: Target)
        requires
            self.sent.wf(),
        ensures
            t.directory@ == storage_directory(self.sent),
            t.path@ == storage_path(*self, index as nat, size as nat, extension@),
    {
        let mut directory = String::new();
        directory.append("store/v2/");
        proof {
            assert(directory@ =~= "store/v2/"@);
        }
        push_month_stamp(&mut directory, &self.sent);
        let mut name = String::new();
        push_decimal(&mut name, self.group);
        proof {
            assert(name@ =~= decimal(self.group as nat));
        }
        name.append("_");
        push_decimal(&mut name, self.sender);
        name.append("_");
        push_decimal(&mut name, self.message);
        name.append("_");
        push_second_stamp(&mut name, &self.sent);
        name.append("_");
        let mut piece = String::new();
        push_decimal(&mut piece, index as u64);
        proof {
            assert(piece@ =~= decimal(index as nat));
        }
        piece.append("_");
        push_decimal(&mut piece, size as u64);
        piece.append(".");
        piece.append(extension);
        name.append(piece.as_str());
        let mut path = directory.clone();
        path.append("/");
        path.append(name.as_str());
        Target { directory, path }
    }

    /// Where the piece at position `index` goes, judged by its content: the
    /// extension is the one that the content's type has, and a content of no
    /// known type goes nowhere.
    pub fn target_for(&self, index: usize, content: &[u8]) -> (r: Option<Target>)
        requires
            self.sent.wf(),
        ensures
            r.is_some() == sniffed_extension(content@).is_some(),
            r matches Some(t) ==> t.directory@ == storage_directory(self.sent) && t.path@
                == storage_path(
                *self,
                index as nat,
                content@.len(),
                sniffed_extension(content@).unwrap(),
            ),
    {
        match sniff(content) {
            Some(extension) => Some(self.target(index, content.len(), extension.as_str())),
            None => None,
        }
    }
}

/// How many pieces of a batch were stored.
pub open spec fn stored_count(log: Seq<Outcome>) -> nat
    decreases log.len(),
{
    if log.len() == 0 {
        0
    } else if log.last() is Stored {
        stored_count(log.drop_last()) + 1
    } else {
        stored_count(log.drop_last())
    }
}

/// A batch of pieces that are stored one after the other, in their order.
/// The caller downloads the pending piece, asks where it goes, writes it and
/// reports how that ended; a piece that fails is passed over and the batch
/// goes on.
#[derive(Debug)]
pub struct StoreRun {
    placement: Placement,
    items: Vec<MediaItem>,
    log: Vec<Outcome>,
    stored: usize,
}

impl StoreRun {
    /// What the pieces share in their paths.
    pub closed spec fn placement(self) -> Placement {
        self.placement
    }

    /// The pieces of the batch.
    pub closed spec fn items(self) -> Seq<ItemView> {
        item_views(self.items@)
    }

    /// How the pieces dealt with so far ended, in their order.
    pub closed spec fn log(self) -> Seq<Outcome> {
        self.log@
    }

    /// The batch is in order: the placement is valid, no more outcomes are
    /// recorded than there are pieces, and the counter agrees with the log.
    pub closed spec fn wf(self) -> bool {
        &&& self.placement.sent.wf()
        &&& self.log@.len() <= self.items@.len()
        &&& self.stored == stored_count(self.log@)
    }

    /// A batch with nothing dealt with yet.
    pub fn new(placement: Placement, items: Vec<MediaItem>) -> (run: StoreRun)
        requires
            placement.sent.wf(),
        ensures
            run.wf(),
            run.placement() == placement,
            run.items() == item_views(items@),
            run.log() == Seq::<Outcome>::empty(),
            run.log().len() <= run.items().len(),
    {
        StoreRun { placement, items, log: Vec::new(), stored: 0 }
    }

    /// The piece to download next, `None` once every piece has its outcome.
    pub fn pending(&self) -> (r: Option<&MediaItem>)
        requires
            self.wf(),
        ensures
            r.is_some() == (self.log().len() < self.items().len()),
            r matches Some(item) ==> item@ == self.items()[self.log().len() as int],
    {
        if self.log.len() < self.items.len() {
            Some(&self.items[self.log.len()])
        } else {
            None
        }
    }

    /// Where the pending piece goes, judged by its downloaded content: its
    /// index is its position in the batch. `None` for a content of no known
    /// type.
    pub fn target_for(&self, content: &[u8]) -> (r: Option<Target>)
        requires
            self.wf(),
        ensures
            r.is_some() == sniffed_extension(content@).is_some(),
            r matches Some(t) ==> t.directory@ == storage_directory(self.placement().sent)
                && t.path@ == storage_path(
                self.placement(),
                self.log().len(),
                content@.len(),
                sniffed_extension(content@).unwrap(),
            ),
    {
        self.placement.target_for(self.log.len(), content)
    }

    /// Records how the pending piece ended and moves on to the next one.
    /// Once every piece has its outcome, nothing changes.
    pub fn record(&mut self, outcome: Outcome)
        requires
            old(self).wf(),
        ensures
            final(self).wf(),
            final(self).placement() == old(self).placement(),
            final(self).items() == old(self).items(),
            final(self).log() == if old(self).log().len() < old(self).items().len() {
                old(self).log().push(outcome)
            } else {
                old(self).log()
            },
            final(self).log().len() <= final(self).items().len(),
    {
        if self.log.len() < self.items.len() {
            proof {
                lemma_count_bounded(self.log@);
                assert(self.log@.push(outcome).drop_last() =~= self.log@);
            }
            self.log.push(outcome);
            match outcome {
                Outcome::Stored => {
                    self.stored = self.stored + 1;
                },
                _ => {},
            }
        }
    }

    /// Whether every piece has its outcome.
    pub fn finished(&self) -> (r: bool)
        requires
            self.wf(),
        ensures
            r == (self.log().len() == self.items().len()),
    {
        self.log.len() >= self.items.len()
    }

    /// How many pieces were stored so far: never more than were dealt with,
    /// nor than the batch holds.
    pub fn stored(&self) -> (n: usize)
        requires
            self.wf(),
        ensures
            n == stored_count(self.log()),
            n <= self.log().len() <= self.items().len(),
    {
        proof {
            lemma_count_bounded(self.log@);
        }
        self.stored
    }

    /// The outcomes recorded so far.
    pub fn outcomes(&self) -> (r: &Vec<Outcome>)
        ensures
            r@ == self.log(),
    {
        &self.log
    }
}

/// No more pieces are stored than were dealt with.
pub proof fn lemma_count_bounded(log: Seq<Outcome>)
    ensures
        stored_count(log) <= log.len(),
    decreases log.len(),
{
    if log.len() > 0 {
        lemma_count_bounded(log.drop_last());
    }
}

/// Where every piece of a batch is stored, the count is the size of the batch.
pub proof fn law_all_stored(log: Seq<Outcome>)
    requires
        forall|i: int| 0 <= i < log.len() ==> log[i] is Stored,
    ensures
        stored_count(log) == log.len(),
    decreases log.len(),
{
    if log.len() > 0 {
        law_all_stored(log.drop_last());
    }
}

/// A piece that fails costs the count exactly one: where the piece `i` is not
/// stored and every other piece is, the count is the size of the batch less
/// one.
pub proof fn law_one_failure(log: Seq<Outcome>, i: int)
    requires
        0 <= i < log.len(),
        !(log[i] is Stored),
        forall|j: int| 0 <= j < log.len() && j != i ==> log[j] is Stored,
    ensures
        stored_count(log) == log.len() - 1,
    decreases log.len(),
{
    if i == log.len() - 1 {
        law_all_stored(log.drop_last());
    } else {
        law_one_failure(log.drop_last(), i);
    }
}

/// The count is the number of pieces less the number of those that failed,
/// whatever their positions: an outcome changes the count of the pieces
/// before it and after it in no way.
pub proof fn law_count_concat(a: Seq<Outcome>, b: Seq<Outcome>)
    ensures
        stored_count(a + b) == stored_count(a) + stored_count(b),
    decreases b.len(),
{
    if b.len() == 0 {
        assert(a + b =~= a);
    } else {
        law_count_concat(a, b.drop_last());
        assert((a + b).drop_last() =~= a + b.drop_last());
    }
}

/// The path is a function of the placement, the index, the size and the
/// extension: equal inputs give the same path.
pub proof fn law_path_determined(
    p: Placement,
    q: Placement,
    index: nat,
    size: nat,
    extension: Seq<char>,
)
    requires
        p.group == q.group,
        p.sender == q.sender,
        p.message == q.message,
        p.sent == q.sent,
    ensures
        storage_path(p, index, size, extension) == storage_path(q, index, size, extension),
{
}

/// Within one message no two pieces share a path: pieces whose paths agree
/// agree in index, size and extension.
pub proof fn law_paths_tell_pieces_apart(
    p: Placement,
    index: nat,
    size: nat,
    extension: Seq<char>,
    other_index: nat,
    other_size: nat,
    other_extension: Seq<char>,
)
    requires
        storage_path(p, index, size, extension) == storage_path(
            p,
            other_index,
            other_size,
            other_extension,
        ),
    ensures
        index == other_index,
        size == other_size,
        extension == other_extension,
{
    let head = storage_directory(p.sent) + "/"@;
    let stem = message_part(p);
    let x = piece_part(index, size, extension);
    let y = piece_part(other_index, other_size, other_extension);
    assert((head + (stem + x)).skip(head.len() as int) =~= stem + x);
    assert((head + (stem + y)).skip(head.len() as int) =~= stem + y);
    assert((stem + x).skip(stem.len() as int) =~= x);
    assert((stem + y).skip(stem.len() as int) =~= y);
    assert(x == y);
    reveal_strlit("_");
    reveal_strlit(".");
    assert("_"@ =~= seq!['_']);
    assert("."@ =~= seq!['.']);
    let x_rest = decimal(size) + seq!['.'] + extension;
    let y_rest = decimal(other_size) + seq!['.'] + other_extension;
    assert(x =~= decimal(index) + seq!['_'] + x_rest);
    assert(y =~= decimal(other_index) + seq!['_'] + y_rest);
    lemma_decimal_digits(index);
    lemma_decimal_digits(other_index);
    lemma_decimal_digits(size);
    lemma_decimal_digits(other_size);
    lemma_digits_then_mark(decimal(index), '_', x_rest, decimal(other_index), '_', y_rest);
    lemma_digits_then_mark(
        decimal(size),
        '.',
        extension,
        decimal(other_size),
        '.',
        other_extension,
    );
    lemma_decimal_injective(index, other_index);
    lemma_decimal_injective(size, other_size);
}

} // verus!
