use vstd::prelude::*;

verus! {

/// The zstd frame that `zstd::encode_all` makes of `data` at compression `level`.
pub uninterp spec fn zstd_encode_all(data: Seq<u8>, level: i32) -> Seq<u8>;

/// The bytes that `zstd::decode_all` recovers from the zstd frame `data`.
pub uninterp spec fn zstd_decode_all(data: Seq<u8>) -> Seq<u8>;

/// `zstd::encode_all`: compresses `data` into one zstd frame at `level`
/// (0 picks zstd's default). The frame depends on the data and the level
/// alone. The source reads the slice and writes to a `Vec`, neither of which
/// fails; at level 0, which zstd accepts, the encoder reports no error (its
/// context is created or the process panics on a failed allocation). An
/// error at another level (reported as an I/O error) gives `None`.
#[verifier::external_body]
fn encode_all(data: &[u8], level: i32) -> (r: Option<Vec<u8>>)
    ensures
        level == 0 ==> r is Some,
        r matches Some(v) ==> v@ == zstd_encode_all(data@, level),
{
    zstd::encode_all(data, level).ok()
}

/// `zstd::decode_all`: decompresses the zstd frame `data`. zstd is lossless:
/// a frame that `encode_all` made decodes, to the data that was encoded. An
/// error of the decoder (on other input) gives `None`.
#[verifier::external_body]
fn decode_all(data: &[u8]) -> (r: Option<Vec<u8>>)
    ensures
        r is Some || !(exists|orig: Seq<u8>, level: i32| data@ == #[trigger] zstd_encode_all(orig, level)),
        r matches Some(v) ==> v@ == zstd_decode_all(data@) && forall|orig: Seq<u8>, level: i32|
            data@ == #[trigger] zstd_encode_all(orig, level) ==> v@ == orig,
{
    zstd::decode_all(data).ok()
}

/// A region of the screen, as `dump_region` gave it, kept compressed.
///
/// For reference, a rectangle with height=1050 and width=1404 will take
/// 5896.8 kB raw and somewhere between 8 kB and 370 kB compressed,
/// depending on how much is drawn in it.
pub struct CompressedCanvasState {
    data: Vec<u8>,
    height: u32,
    width: u32,
}

impl CompressedCanvasState {
    /// The compressed bytes are the zstd frame of some image.
    #[verifier::type_invariant]
    spec fn holds_a_frame(self) -> bool {
        exists|img: Seq<u8>| self.data@ == #[trigger] zstd_encode_all(img, 0)
    }

    /// The compressed bytes.
    pub closed spec fn compressed(&self) -> Seq<u8> {
        self.data@
    }

    pub closed spec fn spec_height(&self) -> u32 {
        self.height
    }

    pub closed spec fn spec_width(&self) -> u32 {
        self.width
    }

    /// Creates a CompressedCanvasState from the output of `dump_region(..)`.
    pub fn new(img: &[u8], height: u32, width: u32) -> (s: CompressedCanvasState)
        ensures
            s.compressed() == zstd_encode_all(img@, 0),
            s.spec_height() == height,
            s.spec_width() == width,
    {
        match encode_all(img, 0) {
            Some(data) => CompressedCanvasState { data, height, width },
            None => {
                proof {
                    assert(false);
                }
                CompressedCanvasState { data: Vec::new(), height, width }
            },
        }
    }

    /// Returns the bytes which can be used to restore the contents of a screen
    /// region using `restore_region(..)`: what was given to `new`.
    pub fn decompress(&self) -> (v: Vec<u8>)
        ensures
            v@ == zstd_decode_all(self.compressed()),
            forall|img: Seq<u8>| self.compressed() == #[trigger] zstd_encode_all(img, 0) ==> v@ == img,
    {
        proof {
            use_type_invariant(self);
        }
        let ghost img = choose|img: Seq<u8>| self.data@ == #[trigger] zstd_encode_all(img, 0);
        match decode_all(self.data.as_slice()) {
            Some(v) => v,
            None => {
                proof {
                    assert(self.data@ == zstd_encode_all(img, 0));
                    assert(false);
                }
                Vec::new()
            },
        }
    }
}

impl Clone for CompressedCanvasState {
    /// The same compressed bytes and size.
    fn clone(&self) -> (c: CompressedCanvasState)
        ensures
            c.compressed() == self.compressed(),
            c.spec_height() == self.spec_height(),
            c.spec_width() == self.spec_width(),
    {
        proof {
            use_type_invariant(self);
        }
        let ghost img = choose|img: Seq<u8>| self.data@ == #[trigger] zstd_encode_all(img, 0);
        let data = self.data.clone();
        proof {
            assert(data@ =~= self.data@);
            assert(data@ == zstd_encode_all(img, 0));
        }
        CompressedCanvasState { data, height: self.height, width: self.width }
    }
}

} // verus!
