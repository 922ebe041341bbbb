//! Stream configuration requests: a builder that keeps one request per stream.

use vstd::prelude::*;
use crate::error::{ErrorKind, RsError};
use crate::kind::{Format, StreamKind};

verus! {

/// The largest value the native library takes for a width, height or framerate.
pub const NATIVE_INT_MAX: usize = 2147483647;

/// One requested stream. A width, height or framerate of `0`, a format of
/// `Format::Any`, a kind of `StreamKind::Any` and an index of `None` each
/// leave that field to the resolver.
#[derive(Clone, Copy, Debug, PartialEq, Eq, Structural)]
pub struct StreamRequest {
    pub stream: StreamKind,
    pub index: Option<usize>,
    pub width: usize,
    pub height: usize,
    pub format: Format,
    pub framerate: usize,
}

/// Two requests address the same stream: the same kind and the same index.
pub open spec fn same_stream(a: StreamRequest, b: StreamRequest) -> bool {
    a.stream == b.stream && a.index == b.index
}

/// No two requests of `s` address the same stream.
pub open spec fn streams_unique(s: Seq<StreamRequest>) -> bool {
    forall|i: int, j: int|
        0 <= i < s.len() && 0 <= j < s.len() && i != j ==> !same_stream(
            #[trigger] s[i],
            #[trigger] s[j],
        )
}

/// The position of the request of `s` that addresses the same stream as `r`,
/// or `-1`.
pub open spec fn stream_position(s: Seq<StreamRequest>, r: StreamRequest) -> int
    decreases s.len(),
{
    if s.len() == 0 {
        -1
    } else {
        let p = stream_position(s.drop_last(), r);
        if p >= 0 {
            p
        } else if same_stream(s.last(), r) {
            s.len() - 1
        } else {
            -1
        }
    }
}

/// The requests `s` after `r` was enabled: it takes the place of the request for
/// the same stream, or comes last.
pub open spec fn with_request(s: Seq<StreamRequest>, r: StreamRequest) -> Seq<StreamRequest> {
    let p = stream_position(s, r);
    if p >= 0 {
        s.update(p, r)
    } else {
        s.push(r)
    }
}

pub proof fn lemma_stream_position(s: Seq<StreamRequest>, r: StreamRequest)
    ensures
        -1 <= stream_position(s, r) < s.len(),
        stream_position(s, r) >= 0 ==> same_stream(s[stream_position(s, r)], r),
        stream_position(s, r) == -1 ==> forall|i: int|
            0 <= i < s.len() ==> !same_stream(#[trigger] s[i], r),
    decreases s.len(),
{
    if s.len() > 0 {
        lemma_stream_position(s.drop_last(), r);
        assert forall|i: int| 0 <= i < s.len() - 1 implies #[trigger] s[i] == s.drop_last()[i] by {}
    }
}

/// A configuration: the requested streams in order, whether every stream of
/// the device is wanted, and the device that must serve them.
#[derive(Debug)]
pub struct Config {
    requests: Vec<StreamRequest>,
    all_streams: bool,
    serial: Option<String>,
}

impl Config {
    /// No two requests address the same stream.
    pub open spec fn wf(&self) -> bool {
        streams_unique(self.spec_requests())
    }

    pub closed spec fn spec_requests(&self) -> Seq<StreamRequest> {
        self.requests@
    }

    pub closed spec fn spec_all_streams(&self) -> bool {
        self.all_streams
    }

    pub closed spec fn spec_serial(&self) -> Option<Seq<char>> {
        match self.serial {
            Some(s) => Some(s@),
            None => None,
        }
    }

    /// An empty configuration: no stream requested, any device.
    pub fn new() -> (r: Config)
        ensures
            r.wf(),
            r.spec_requests() == Seq::<StreamRequest>::empty(),
            !r.spec_all_streams(),
            r.spec_serial() is None,
    {
        Config { requests: Vec::new(), all_streams: false, serial: None }
    }

    /// The requested streams, in the order they were first enabled.
    pub fn requests(&self) -> (r: &Vec<StreamRequest>)
        ensures
            r@ == self.spec_requests(),
    {
        &self.requests
    }

    /// Whether every stream of the device is wanted.
    pub fn all_streams(&self) -> (r: bool)
        ensures
            r == self.spec_all_streams(),
    {
        self.all_streams
    }

    /// The serial number of the device that must serve the streams, if one is set.
    pub fn serial(&self) -> (r: Option<&str>)
        ensures
            r is None <==> self.spec_serial() is None,
            r matches Some(s) ==> self.spec_serial() == Some(s@),
    {
        match &self.serial {
            Some(s) => Some(s.as_str()),
            None => None,
        }
    }

    /// Requests a stream. A request for the same kind and index as an earlier
    /// one replaces it in place. A width, height or framerate that the native
    /// library cannot take is an `InvalidValue` error, and changes nothing.
    pub fn enable_stream(
        &mut self,
        stream: StreamKind,
        index: Option<usize>,
        width: usize,
        height: usize,
        format: Format,
        framerate: usize,
    ) -> (r: Result<(), RsError>)
        requires
            old(self).wf(),
        ensures
            final(self).wf(),
            final(self).spec_all_streams() == old(self).spec_all_streams(),
            final(self).spec_serial() == old(self).spec_serial(),
            r is Ok <==> (width <= NATIVE_INT_MAX && height <= NATIVE_INT_MAX && framerate
                <= NATIVE_INT_MAX),
            r matches Err(e) ==> e.kind == ErrorKind::InvalidValue && final(self).spec_requests()
                == old(self).spec_requests(),
            r is Ok ==> final(self).spec_requests() == with_request(
                old(self).spec_requests(),
                (StreamRequest { stream, index, width, height, format, framerate }),
            ),
    {
        if width > NATIVE_INT_MAX || height > NATIVE_INT_MAX || framerate > NATIVE_INT_MAX {
            return Err(RsError::new(ErrorKind::InvalidValue, String::new()));
        }
        let req = StreamRequest { stream, index, width, height, format, framerate };
        let ghost s = self.requests@;
        proof {
            lemma_stream_position(s, req);
        }
        let mut i: usize = 0;
        while i < self.requests.len()
            invariant
                0 <= i <= s.len(),
                self.requests@ == s,
                s == old(self).requests@,
                streams_unique(s),
                self.all_streams == old(self).all_streams,
                self.serial == old(self).serial,
                width <= NATIVE_INT_MAX && height <= NATIVE_INT_MAX && framerate <= NATIVE_INT_MAX,
                req == (StreamRequest { stream, index, width, height, format, framerate }),
                forall|j: int| 0 <= j < i ==> !same_stream(#[trigger] s[j], req),
            decreases s.len() - i,
        {
            let cur = self.requests[i];
            if cur.stream == req.stream && cur.index == req.index {
                proof {
                    lemma_stream_position(s, req);
                    let p = stream_position(s, req);
                    assert(same_stream(s[i as int], req));
                    if p == -1 {
                        assert(!same_stream(s[i as int], req));
                    } else if p != i {
                        assert(same_stream(s[p], req));
                        assert(!same_stream(s[p], s[i as int]));
                    }
                    assert(p == i as int);
                }
                self.requests.set(i, req);
                proof {
                    assert forall|a: int, b: int|
                        0 <= a < self.requests@.len() && 0 <= b < self.requests@.len() && a
                            != b implies !same_stream(
                        #[trigger] self.requests@[a],
                        #[trigger] self.requests@[b],
                    ) by {
                        assert(!same_stream(s[a], s[b]));
                    }
                }
                return Ok(());
            }
            i = i + 1;
        }
        self.requests.push(req);
        proof {
            assert forall|a: int, b: int|
                0 <= a < self.requests@.len() && 0 <= b < self.requests@.len() && a
                    != b implies !same_stream(
                #[trigger] self.requests@[a],
                #[trigger] self.requests@[b],
            ) by {
                if a < s.len() && b < s.len() {
                    assert(!same_stream(s[a], s[b]));
                }
            }
        }
        Ok(())
    }

    /// Requests every stream that the chosen device offers, besides the
    /// requests already made.
    pub fn enable_all_streams(&mut self)
        requires
            old(self).wf(),
        ensures
            final(self).wf(),
            final(self).spec_all_streams(),
            final(self).spec_requests() == old(self).spec_requests(),
            final(self).spec_serial() == old(self).spec_serial(),
    {
        self.all_streams = true;
    }

    /// Withdraws every request, including the one for all streams.
    pub fn disable_all_streams(&mut self)
        ensures
            final(self).wf(),
            !final(self).spec_all_streams(),
            final(self).spec_requests() == Seq::<StreamRequest>::empty(),
            final(self).spec_serial() == old(self).spec_serial(),
    {
        self.requests = Vec::new();
        self.all_streams = false;
    }

    /// Requires the streams to come from the device with this serial number
    /// (matched exactly).
    pub fn enable_device_from_serial(&mut self, serial: &str)
        requires
            old(self).wf(),
        ensures
            final(self).wf(),
            final(self).spec_serial() == Some(serial@),
            final(self).spec_requests() == old(self).spec_requests(),
            final(self).spec_all_streams() == old(self).spec_all_streams(),
    {
        self.serial = Some(serial.to_string());
    }
}

} // verus!
