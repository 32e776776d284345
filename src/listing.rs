//! The decisions of one directory listing, as a machine that asks for one
//! native call at a time and is told what the call returned.
use vstd::prelude::*;

use crate::wide::{
    decode_lossy, encode, lemma_encode_append, string_to_wstring, utf16_lossy, utf16_units,
    wide_name,
};

verus! {

/// One object of the listed directory.
#[derive(Debug, Clone)]
pub struct ObjectInfo {
    pub name: String,
    pub typename: String,
    /// The target of a symbolic link; empty for any other object and for a
    /// link that could not be resolved.
    pub target: String,
}

/// What an [`ObjectInfo`] holds, as text.
pub struct ObjectModel {
    pub name: Seq<char>,
    pub typename: Seq<char>,
    pub target: Seq<char>,
}

impl View for ObjectInfo {
    type V = ObjectModel;

    open spec fn view(&self) -> ObjectModel {
        ObjectModel { name: self.name@, typename: self.typename@, target: self.target@ }
    }
}

/// One record of a directory query, as code units: the name and the type name.
pub struct RawEntry {
    pub name: Vec<u16>,
    pub typename: Vec<u16>,
}

impl View for RawEntry {
    type V = (Seq<u16>, Seq<u16>);

    open spec fn view(&self) -> (Seq<u16>, Seq<u16>) {
        (self.name@, self.typename@)
    }
}

/// The native call that the listing needs next.
pub enum Request {
    /// Open the directory, by this zero-terminated name, for query access.
    OpenDirectory(Vec<u16>),
    /// Fill the buffer with records; from the first record when `restart`.
    QueryDirectory { restart: bool },
    /// Read this many records from the start of the filled buffer.
    ReadEntries(u32),
    /// Open the symbolic link, by this zero-terminated name, for query access.
    OpenLink(Vec<u16>),
    /// Query the target of the open link.
    QueryLink,
    /// Close the open link.
    CloseLink,
    /// Close the directory.
    CloseDirectory,
    /// Nothing more: the objects, or the status with which the open failed.
    Finished(Result<Vec<ObjectInfo>, i32>),
}

/// The reply that the listing waits for.
#[derive(Clone, Copy, PartialEq, Eq, Debug)]
pub enum Stage {
    Opening,
    Querying,
    Reading,
    OpeningLink,
    QueryingLink,
    ClosingLink,
    Closing,
    Done,
}

/// What a sequence of objects holds, as text.
pub open spec fn models(v: Seq<ObjectInfo>) -> Seq<ObjectModel> {
    v.map_values(|o: ObjectInfo| o@)
}

/// What a sequence of raw records holds.
pub open spec fn raw_models(v: Seq<RawEntry>) -> Seq<(Seq<u16>, Seq<u16>)> {
    v.map_values(|e: RawEntry| e@)
}

/// The type name of a symbolic link object.
pub open spec fn link_type() -> Seq<char> {
    "SymbolicLink"@
}

/// The full name of an object in a directory.
pub open spec fn link_path(dir: Seq<char>, name: Seq<char>) -> Seq<char> {
    dir + seq!['\\'] + name
}

/// The object listed for a raw record whose link (if it is one) resolved to `target`.
pub open spec fn decoded(raw: (Seq<u16>, Seq<u16>), target: Seq<char>) -> ObjectModel {
    ObjectModel { name: decode_lossy(raw.0), typename: decode_lossy(raw.1), target }
}

/// An object decoded from `raw`, with an empty target unless it is a link.
pub open spec fn lists(o: ObjectModel, raw: (Seq<u16>, Seq<u16>)) -> bool {
    &&& o.name == decode_lossy(raw.0)
    &&& o.typename == decode_lossy(raw.1)
    &&& o.typename != link_type() ==> o.target.len() == 0
}

/// The state of one listing of one directory.
pub struct Listing {
    dir: String,
    stage: Stage,
    /// The cursor of the last successful query.
    cursor: u32,
    /// The records of the last fill; those before `next` are listed.
    pending: Vec<RawEntry>,
    next: usize,
    /// The decoded name and type of the link being resolved.
    name: String,
    typename: String,
    /// What the link query returned, kept until the link is closed.
    link_status: i32,
    link_units: Vec<u16>,
    items: Vec<ObjectInfo>,
    received: Ghost<Seq<(Seq<u16>, Seq<u16>)>>,
}

impl Listing {
    /// The directory being listed.
    pub closed spec fn dir(&self) -> Seq<char> {
        self.dir@
    }

    /// The reply that the listing waits for.
    pub closed spec fn stage_spec(&self) -> Stage {
        self.stage
    }

    /// The cursor that the last successful query reported (0 before any).
    pub closed spec fn cursor(&self) -> u32 {
        self.cursor
    }

    /// Every record read from the query buffer so far, in order.
    pub closed spec fn received(&self) -> Seq<(Seq<u16>, Seq<u16>)> {
        self.received@
    }

    /// The objects listed so far, in order.
    pub closed spec fn items(&self) -> Seq<ObjectModel> {
        models(self.items@)
    }

    /// The record that is being handled while a link is resolved.
    pub closed spec fn current(&self) -> (Seq<u16>, Seq<u16>) {
        self.pending@[self.next as int]@
    }

    /// The outcome of the link query, kept until the link is closed.
    pub closed spec fn link_status(&self) -> i32 {
        self.link_status
    }

    pub closed spec fn link_units(&self) -> Seq<u16> {
        self.link_units@
    }

    /// The records received so far are listed, in order, up to those still pending.
    pub closed spec fn wf_records(&self) -> bool {
        let rec = self.received@;
        let p = self.pending@.len();
        &&& self.next <= p <= rec.len()
        &&& forall|i: int| 0 <= i < p ==> #[trigger] self.pending@[i]@ == rec[rec.len() - p + i]
        &&& self.items@.len() == rec.len() - p + self.next
        &&& forall|i: int| 0 <= i < self.items@.len() ==> lists(#[trigger] self.items@[i]@, rec[i])
    }

    pub closed spec fn wf(&self) -> bool {
        match self.stage {
            Stage::Done => true,
            Stage::OpeningLink | Stage::QueryingLink | Stage::ClosingLink => {
                &&& self.wf_records()
                &&& self.next < self.pending@.len()
                &&& self.name@ == decode_lossy(self.pending@[self.next as int].name@)
                &&& self.typename@ == decode_lossy(self.pending@[self.next as int].typename@)
                &&& self.typename@ == link_type()
            },
            Stage::Opening => {
                &&& self.wf_records()
                &&& self.received@.len() == 0
                &&& self.cursor == 0
            },
            _ => self.wf_records() && self.next == self.pending@.len(),
        }
    }

    /// Between two fills of the buffer, every record received so far is listed
    /// exactly once, in the order received, and only a symbolic link has a target.
    pub proof fn lemma_records_listed(&self)
        requires
            self.wf(),
            self.stage_spec() == Stage::Querying || self.stage_spec() == Stage::Closing,
        ensures
            self.items().len() == self.received().len(),
            forall|i: int|
                0 <= i < self.items().len() ==> lists(
                    #[trigger] self.items()[i],
                    self.received()[i],
                ),
            forall|i: int|
                0 <= i < self.items().len() && #[trigger] self.items()[i].typename != link_type()
                    ==> self.items()[i].target.len() == 0,
    {
        assert forall|i: int| 0 <= i < self.items().len() implies lists(
            #[trigger] self.items()[i],
            self.received()[i],
        ) by {
            assert(self.items()[i] == self.items@[i]@);
        }
        assert forall|i: int|
            0 <= i < self.items().len() && #[trigger] self.items()[i].typename
                != link_type() implies self.items()[i].target.len() == 0 by {
            assert(self.items()[i] == self.items@[i]@);
        }
    }

    /// A new listing of `dir`, and the first call it needs.
    pub fn begin(dir: &str) -> (r: (Listing, Request))
        ensures
            r.0.wf(),
            r.0.dir() == dir@,
            r.0.stage_spec() == Stage::Opening,
            r.0.received().len() == 0,
            r.0.items().len() == 0,
            match r.1 {
                Request::OpenDirectory(n) => n@ == wide_name(dir@),
                _ => false,
            },
    {
        let l = Listing {
            dir: dir.to_owned(),
            stage: Stage::Opening,
            cursor: 0,
            pending: Vec::new(),
            next: 0,
            name: String::new(),
            typename: String::new(),
            link_status: 0,
            link_units: Vec::new(),
            items: Vec::new(),
            received: Ghost(Seq::empty()),
        };
        let n = string_to_wstring(dir);
        (l, Request::OpenDirectory(n))
    }

    /// The reply that the listing waits for.
    pub fn stage(&self) -> (r: Stage)
        ensures
            r == self.stage_spec(),
    {
        self.stage
    }

    /// The name by which the link `name` in `dir` is opened.
    fn link_name(dir: &String, name: &String) -> (r: Vec<u16>)
        ensures
            r@ == wide_name(link_path(dir@, name@)),
    {
        let mut w = utf16_units(dir.as_str());
        w.push(0x5C);
        let mut n = utf16_units(name.as_str());
        w.append(&mut n);
        w.push(0);
        proof {
            let sep = seq!['\\'];
            lemma_encode_append(dir@, sep);
            lemma_encode_append(dir@ + sep, name@);
            assert(encode(sep) =~= seq![0x5Cu16]) by {
                assert(sep.skip(1) =~= Seq::<char>::empty());
                assert(encode(sep.skip(1)) =~= Seq::<u16>::empty());
                assert(sep[0] as u32 == 0x5C);
            }
        }
        w
    }

    /// Lists the pending records up to the first symbolic link, which it asks
    /// to open; with none left it asks for the next fill of the buffer.
    fn advance(&mut self) -> (r: Request)
        requires
            old(self).wf_records(),
        ensures
            final(self).wf(),
            final(self).dir() == old(self).dir(),
            final(self).cursor() == old(self).cursor(),
            final(self).received() == old(self).received(),
            final(self).items().len() >= old(self).items().len(),
            final(self).items().take(old(self).items().len() as int) == old(self).items(),
            final(self).proceeds(r),
    {
        let ghost start = models(self.items@);
        while self.next < self.pending.len()
            invariant
                self.wf_records(),
                self.dir@ == old(self).dir@,
                self.cursor == old(self).cursor,
                self.received@ == old(self).received@,
                start == models(old(self).items@),
                self.items@.len() >= start.len(),
                models(self.items@).take(start.len() as int) == start,
            decreases self.pending@.len() - self.next,
        {
            let k = self.next;
            let name = utf16_lossy(self.pending[k].name.as_slice());
            let typename = utf16_lossy(self.pending[k].typename.as_slice());
            let link = "SymbolicLink".to_owned();
            if typename == link {
                self.name = name;
                self.typename = typename;
                self.stage = Stage::OpeningLink;
                let n = Self::link_name(&self.dir, &self.name);
                assert(models(self.items@).len() == self.items@.len());
                return Request::OpenLink(n);
            }
            let ghost before = self.items@;
            let ghost rec = self.received@;
            let ghost p = self.pending@.len();
            assert(self.pending@[k as int]@ == rec[rec.len() - p + k]);
            self.items.push(ObjectInfo { name, typename, target: String::new() });
            self.next = k + 1;
            proof {
                assert(lists(self.items@[before.len() as int]@, rec[before.len() as int]));
                assert forall|i: int| 0 <= i < self.items@.len() implies lists(
                    #[trigger] self.items@[i]@,
                    rec[i],
                ) by {
                    if i < before.len() {
                        assert(self.items@[i] == before[i]);
                    }
                }
                assert(models(self.items@).take(start.len() as int)
                    =~= models(before).take(start.len() as int));
            }
        }
        self.stage = Stage::Querying;
        Request::QueryDirectory { restart: false }
    }


    /// After the records before it are listed, either the next link is opened
    /// or, with every record received so far listed, the buffer is filled again.
    pub open spec fn proceeds(&self, r: Request) -> bool {
        match r {
            Request::OpenLink(n) => {
                &&& self.stage_spec() == Stage::OpeningLink
                &&& n@ == wide_name(link_path(self.dir(), decode_lossy(self.current().0)))
            },
            Request::QueryDirectory { restart } => {
                &&& !restart
                &&& self.stage_spec() == Stage::Querying
                &&& self.items().len() == self.received().len()
            },
            _ => false,
        }
    }

    /// The directory was opened with `status`. Any status but zero ends the
    /// listing with that status; zero starts the queries from the first record.
    pub fn on_opened(&mut self, status: i32) -> (r: Request)
        requires
            old(self).wf(),
            old(self).stage_spec() == Stage::Opening,
        ensures
            final(self).wf(),
            final(self).dir() == old(self).dir(),
            final(self).received() == old(self).received(),
            final(self).items() == old(self).items(),
            status != 0 ==> final(self).stage_spec() == Stage::Done && match r {
                Request::Finished(Err(e)) => e == status,
                _ => false,
            },
            status == 0 ==> final(self).stage_spec() == Stage::Querying && match r {
                Request::QueryDirectory { restart } => restart,
                _ => false,
            },
    {
        if status != 0 {
            self.stage = Stage::Done;
            Request::Finished(Err(status))
        } else {
            self.stage = Stage::Querying;
            Request::QueryDirectory { restart: true }
        }
    }

    /// A query returned `status` and the cursor `index`. A failure, the end of
    /// the records included, closes the directory; otherwise the records between
    /// the previous cursor and `index` are read.
    pub fn on_queried(&mut self, status: i32, index: u32) -> (r: Request)
        requires
            old(self).wf(),
            old(self).stage_spec() == Stage::Querying,
        ensures
            final(self).wf(),
            final(self).dir() == old(self).dir(),
            final(self).received() == old(self).received(),
            final(self).items() == old(self).items(),
            status < 0 ==> final(self).stage_spec() == Stage::Closing && r is CloseDirectory
                && final(self).cursor() == old(self).cursor(),
            status >= 0 ==> final(self).cursor() == index,
            status >= 0 && index > old(self).cursor() ==> final(self).stage_spec() == Stage::Reading
                && match r {
                Request::ReadEntries(n) => n == index - old(self).cursor(),
                _ => false,
            },
            status >= 0 && index <= old(self).cursor() ==> final(self).stage_spec()
                == Stage::Querying && match r {
                Request::QueryDirectory { restart } => !restart,
                _ => false,
            },
    {
        if status < 0 {
            self.stage = Stage::Closing;
            return Request::CloseDirectory;
        }
        let start = self.cursor;
        self.cursor = index;
        if index > start {
            self.stage = Stage::Reading;
            Request::ReadEntries(index - start)
        } else {
            Request::QueryDirectory { restart: false }
        }
    }

    /// The records read from the buffer, in the order in which they stand there.
    pub fn on_entries(&mut self, entries: Vec<RawEntry>) -> (r: Request)
        requires
            old(self).wf(),
            old(self).stage_spec() == Stage::Reading,
        ensures
            final(self).wf(),
            final(self).dir() == old(self).dir(),
            final(self).cursor() == old(self).cursor(),
            final(self).received() == old(self).received() + raw_models(entries@),
            final(self).items().len() >= old(self).items().len(),
            final(self).items().take(old(self).items().len() as int) == old(self).items(),
            final(self).proceeds(r),
    {
        let ghost old_rec = self.received@;
        self.received = Ghost(self.received@ + raw_models(entries@));
        self.pending = entries;
        self.next = 0;
        proof {
            let rec = self.received@;
            assert forall|i: int| 0 <= i < self.items@.len() implies lists(
                #[trigger] self.items@[i]@,
                rec[i],
            ) by {
                assert(rec[i] == old_rec[i]);
            }
            assert forall|i: int| 0 <= i < self.pending@.len() implies #[trigger] self.pending@[i]@
                == rec[rec.len() - self.pending@.len() + i] by {
                assert(rec[old_rec.len() + i] == raw_models(self.pending@)[i]);
            }
        }
        self.advance()
    }

    /// Lists the link being resolved with `target`, and goes on.
    fn finish_link(&mut self, target: String) -> (r: Request)
        requires
            old(self).wf(),
            old(self).stage_spec() == Stage::OpeningLink || old(self).stage_spec()
                == Stage::ClosingLink,
        ensures
            final(self).wf(),
            final(self).dir() == old(self).dir(),
            final(self).cursor() == old(self).cursor(),
            final(self).received() == old(self).received(),
            final(self).items().len() > old(self).items().len(),
            final(self).items().take(old(self).items().len() as int) == old(self).items(),
            final(self).items()[old(self).items().len() as int] == decoded(
                old(self).current(),
                target@,
            ),
            final(self).proceeds(r),
    {
        let ghost before = self.items@;
        let ghost rec = self.received@;
        let ghost p = self.pending@.len();
        let k = self.next;
        let n = self.pending.len();
        assert(k < n);
        assert(self.pending@[k as int]@ == rec[rec.len() - p + k]);
        let name = self.name.clone();
        let typename = self.typename.clone();
        self.items.push(ObjectInfo { name, typename, target });
        self.next = k + 1;
        proof {
            assert forall|i: int| 0 <= i < self.items@.len() implies lists(
                #[trigger] self.items@[i]@,
                rec[i],
            ) by {
                if i < before.len() {
                    assert(self.items@[i] == before[i]);
                }
            }
        }
        let ghost pushed = models(self.items@);
        let r = self.advance();
        proof {
            assert(models(self.items@).take(before.len() as int) =~= pushed.take(
                before.len() as int,
            ).take(before.len() as int));
            assert(pushed.take(before.len() as int) =~= models(before));
            assert(models(self.items@)[before.len() as int] == pushed[before.len() as int]);
        }
        r
    }

    /// The link was opened with `status`. A failure lists it with an empty target.
    pub fn on_link_opened(&mut self, status: i32) -> (r: Request)
        requires
            old(self).wf(),
            old(self).stage_spec() == Stage::OpeningLink,
        ensures
            final(self).wf(),
            final(self).dir() == old(self).dir(),
            final(self).cursor() == old(self).cursor(),
            final(self).received() == old(self).received(),
            status >= 0 ==> final(self).stage_spec() == Stage::QueryingLink && r is QueryLink
                && final(self).items() == old(self).items() && final(self).current()
                == old(self).current(),
            status < 0 ==> {
                &&& final(self).items().len() > old(self).items().len()
                &&& final(self).items().take(old(self).items().len() as int) == old(self).items()
                &&& final(self).items()[old(self).items().len() as int] == decoded(
                    old(self).current(),
                    seq![],
                )
                &&& final(self).proceeds(r)
            },
    {
        if status < 0 {
            self.finish_link(String::new())
        } else {
            self.stage = Stage::QueryingLink;
            Request::QueryLink
        }
    }

    /// The link query returned `status` and, on success, the target's code units.
    pub fn on_link_queried(&mut self, status: i32, target: Vec<u16>) -> (r: Request)
        requires
            old(self).wf(),
            old(self).stage_spec() == Stage::QueryingLink,
        ensures
            final(self).wf(),
            final(self).dir() == old(self).dir(),
            final(self).cursor() == old(self).cursor(),
            final(self).received() == old(self).received(),
            final(self).items() == old(self).items(),
            final(self).current() == old(self).current(),
            final(self).stage_spec() == Stage::ClosingLink,
            final(self).link_status() == status,
            final(self).link_units() == target@,
            r is CloseLink,
    {
        self.link_status = status;
        self.link_units = target;
        self.stage = Stage::ClosingLink;
        Request::CloseLink
    }

    /// The link is closed: it is listed with its target, or with an empty one
    /// where the query failed.
    pub fn on_link_closed(&mut self) -> (r: Request)
        requires
            old(self).wf(),
            old(self).stage_spec() == Stage::ClosingLink,
        ensures
            final(self).wf(),
            final(self).dir() == old(self).dir(),
            final(self).cursor() == old(self).cursor(),
            final(self).received() == old(self).received(),
            final(self).items().len() > old(self).items().len(),
            final(self).items().take(old(self).items().len() as int) == old(self).items(),
            final(self).items()[old(self).items().len() as int] == decoded(
                old(self).current(),
                if old(self).link_status() < 0 {
                    seq![]
                } else {
                    decode_lossy(old(self).link_units())
                },
            ),
            final(self).proceeds(r),
    {
        let target = if self.link_status < 0 {
            String::new()
        } else {
            utf16_lossy(self.link_units.as_slice())
        };
        self.finish_link(target)
    }

    /// The directory is closed: the listing ends with every record received,
    /// in order.
    pub fn on_closed(&mut self) -> (r: Request)
        requires
            old(self).wf(),
            old(self).stage_spec() == Stage::Closing,
        ensures
            final(self).wf(),
            final(self).stage_spec() == Stage::Done,
            match r {
                Request::Finished(Ok(v)) => {
                    &&& models(v@) == old(self).items()
                    &&& v@.len() == old(self).received().len()
                    &&& forall|i: int|
                        0 <= i < v@.len() ==> lists(#[trigger] v@[i]@, old(self).received()[i])
                },
                _ => false,
            },
    {
        let mut out: Vec<ObjectInfo> = Vec::new();
        std::mem::swap(&mut out, &mut self.items);
        self.stage = Stage::Done;
        Request::Finished(Ok(out))
    }
}

} // verus!
