//! The streaming decompressor contract and the codecs built in here.
//!
//! A decompressor consumes compressed bytes and produces plaintext bytes
//! with backpressure: each call reads some prefix of the input and writes
//! some prefix of the output buffer.  Store copies verbatim.  AE-x does
//! not decrypt: it captures the salt, password verifier and authentication
//! code and passes the ciphertext through so the driving machine's
//! accounting still reaches the declared compressed size.  The remaining
//! methods belong to codec crates outside this build and are reported as
//! not enabled.

use vstd::prelude::*;
use crate::entry::Entry;
use crate::error::{Error, FormatError, UnsupportedError};
use crate::extras::ExtraAexField;
use crate::method::Method;

verus! {

/// What one decompression call did.
#[derive(Clone, Copy, Debug)]
pub struct DecompressOutcome {
    /// Bytes consumed from the input slice.
    pub bytes_read: usize,
    /// Bytes written to the output buffer.
    pub bytes_written: usize,
}

/// Whether more compressed input follows after the current slice.
#[derive(Clone, Copy, Debug, PartialEq, Eq, Structural)]
pub enum HasMoreInput {
    /// More input will be fed later.
    Yes,
    /// The current slice ends the compressed stream.
    No,
}

/// Copies the first `n` bytes of `src` over the start of `dst`.
fn copy_prefix(src: &[u8], dst: &mut [u8], n: usize)
    requires
        n <= src@.len(),
        n <= old(dst)@.len(),
    ensures
        final(dst)@.len() == old(dst)@.len(),
        final(dst)@.subrange(0, n as int) == src@.subrange(0, n as int),
        forall|j: int| n <= j < old(dst)@.len() ==> final(dst)@[j] == old(dst)@[j],
{
    let mut i: usize = 0;
    while i < n
        invariant
            n <= src@.len(),
            n <= dst@.len(),
            dst@.len() == old(dst)@.len(),
            i <= n,
            forall|j: int| 0 <= j < i ==> dst@[j] == src@[j],
            forall|j: int| i <= j < dst@.len() ==> dst@[j] == old(dst)@[j],
        decreases n - i,
    {
        let b = src[i];
        dst[i] = b;
        i += 1;
    }
    proof {
        assert(dst@.subrange(0, n as int) =~= src@.subrange(0, n as int));
    }
}

/// The identity codec: stored entries are not compressed at all.
pub struct StoreDec;

impl StoreDec {
    /// Copies as much input to the output as both sides allow.
    pub fn decompress(&mut self, in_buf: &[u8], out: &mut [u8], _has_more_input: HasMoreInput,
    ) -> (r: DecompressOutcome)
        ensures
            r.bytes_read == r.bytes_written == vstd::math::min(
                in_buf@.len() as int,
                old(out)@.len() as int,
            ),
            final(out)@.len() == old(out)@.len(),
            final(out)@.subrange(0, r.bytes_written as int) == in_buf@.subrange(
                0,
                r.bytes_written as int,
            ),
            forall|j: int|
                r.bytes_written <= j < old(out)@.len() ==> final(out)@[j] == old(out)@[j],
    {
        let mut n = in_buf.len();
        if out.len() < n {
            n = out.len();
        }
        copy_prefix(in_buf, out, n);
        DecompressOutcome { bytes_read: n, bytes_written: n }
    }
}

/// The salt size an AE-x mode prescribes; an unknown mode prescribes none
/// and is a format error.
pub open spec fn spec_salt_size(mode: u8) -> Option<int> {
    if mode == 1 {
        Some(8int)
    } else if mode == 2 {
        Some(12int)
    } else if mode == 3 {
        Some(16int)
    } else {
        None
    }
}

/// Side data captured from an AE-x stream: everything but the ciphertext.
#[derive(Clone, Debug)]
pub struct AexData {
    /// The key-derivation salt; 8, 12 or 16 bytes according to the mode.
    pub salt_value: Vec<u8>,
    /// The two-byte password verification value.
    pub password_verification_value: Vec<u8>,
    /// The ten-byte authentication code trailing the stream.
    pub authentication_code: Vec<u8>,
}

/// The AE-x pass-through codec.  It does not decrypt: it records the salt,
/// verifier and authentication code, and copies the stream through so the
/// caller's accounting advances; the caller suppresses size and checksum
/// validation for encrypted entries.
pub struct AexDec {
    /// The AE-x framing parameters from the entry's extra field.
    pub aex: ExtraAexField,
    /// The captured salt, once enough input has been seen.
    pub salt_value: Option<Vec<u8>>,
    /// The captured password verification value.
    pub password_verification_value: Option<Vec<u8>>,
    /// The captured authentication code, once the tail has been seen.
    pub authentication_code: Option<Vec<u8>>,
}

impl AexDec {
    /// Every captured piece has the length the framing prescribes.
    pub open spec fn wf(self) -> bool {
        &&& self.salt_value matches Some(v) ==> Some(v@.len() as int) == spec_salt_size(
            self.aex.mode,
        )
        &&& self.password_verification_value matches Some(v) ==> v@.len() == 2
        &&& self.authentication_code matches Some(v) ==> v@.len() == 10
    }

    /// A fresh AE-x codec for the given framing; nothing captured yet.
    pub fn new(aex: ExtraAexField) -> (r: AexDec)
        ensures
            r.wf(),
            r.aex == aex,
            r.salt_value is None,
            r.password_verification_value is None,
            r.authentication_code is None,
    {
        AexDec {
            aex,
            salt_value: None,
            password_verification_value: None,
            authentication_code: None,
        }
    }

    /// Hands out the captured side data, once everything was seen: the
    /// salt, the verifier and the authentication code, each of its
    /// prescribed length.  The codec keeps nothing.
    pub fn take_aex_data(&mut self) -> (r: Option<AexData>)
        requires
            old(self).wf(),
        ensures
            final(self).wf(),
            final(self).aex == old(self).aex,
            match r {
                Some(d) => {
                    &&& old(self).salt_value matches Some(v) && d.salt_value == v
                    &&& old(self).password_verification_value matches Some(v)
                        && d.password_verification_value == v
                    &&& old(self).authentication_code matches Some(v) && d.authentication_code
                        == v
                    &&& Some(d.salt_value@.len() as int) == spec_salt_size(old(self).aex.mode)
                    &&& d.password_verification_value@.len() == 2
                    &&& d.authentication_code@.len() == 10
                    &&& final(self).salt_value is None
                    &&& final(self).password_verification_value is None
                    &&& final(self).authentication_code is None
                },
                None => {
                    &&& !(old(self).salt_value is Some && old(
                        self,
                    ).password_verification_value is Some && old(self).authentication_code
                        is Some)
                    &&& *final(self) == *old(self)
                },
            },
    {
        if self.salt_value.is_some() && self.password_verification_value.is_some()
            && self.authentication_code.is_some() {
            let salt_value = self.salt_value.take().unwrap();
            let password_verification_value = self.password_verification_value.take().unwrap();
            let authentication_code = self.authentication_code.take().unwrap();
            Some(AexData { salt_value, password_verification_value, authentication_code })
        } else {
            None
        }
    }

    /// One pass-through step.
    ///
    /// With fewer bytes than salt and verifier together, the input is
    /// swallowed without output.  Otherwise the salt and verifier are
    /// captured first if they have not been, the trailing ten bytes are
    /// captured as the authentication code when the stream ends here, and
    /// the input is copied through verbatim.
    pub fn decompress(&mut self, in_buf: &[u8], out: &mut [u8], has_more_input: HasMoreInput,
    ) -> (r: Result<DecompressOutcome, Error>)
        requires
            old(self).wf(),
        ensures
            final(self).wf(),
            final(self).aex == old(self).aex,
            final(out)@.len() == old(out)@.len(),
            match r {
                Err(e) => {
                    &&& spec_salt_size(old(self).aex.mode) is None
                    &&& e == Error::Format(FormatError::InvalidExtraField)
                    &&& *final(self) == *old(self)
                    &&& final(out)@ == old(out)@
                },
                Ok(o) => {
                    &&& spec_salt_size(old(self).aex.mode) matches Some(ss)
                    &&& {
                        let ss = spec_salt_size(old(self).aex.mode).unwrap();
                        if in_buf@.len() < ss + 2 {
                            &&& o.bytes_read == in_buf@.len()
                            &&& o.bytes_written == 0
                            &&& *final(self) == *old(self)
                            &&& final(out)@ == old(out)@
                        } else {
                            let fresh = old(self).salt_value is None;
                            let rest = if fresh {
                                in_buf@.skip(ss + 2)
                            } else {
                                in_buf@
                            };
                            &&& if fresh {
                                &&& final(self).salt_value matches Some(v) && v@
                                    == in_buf@.subrange(0, ss)
                                &&& final(self).password_verification_value matches Some(v) && v@
                                    == in_buf@.subrange(ss, ss + 2)
                            } else {
                                &&& final(self).salt_value == old(self).salt_value
                                &&& final(self).password_verification_value == old(
                                    self,
                                ).password_verification_value
                            }
                            &&& if has_more_input is No && rest.len() >= 10 {
                                final(self).authentication_code matches Some(v) && v@
                                    == rest.skip(rest.len() - 10)
                            } else {
                                final(self).authentication_code == old(self).authentication_code
                            }
                            &&& o.bytes_read == o.bytes_written == vstd::math::min(
                                in_buf@.len() as int,
                                old(out)@.len() as int,
                            )
                            &&& final(out)@.subrange(0, o.bytes_written as int)
                                == in_buf@.subrange(0, o.bytes_written as int)
                            &&& forall|j: int|
                                o.bytes_written <= j < old(out)@.len() ==> final(out)@[j] == old(
                                    out,
                                )@[j]
                        }
                    }
                },
            },
    {
        let salt_size: usize = match self.aex.mode {
            1 => 8,
            2 => 12,
            3 => 16,
            _ => {
                return Err(Error::Format(FormatError::InvalidExtraField));
            },
        };
        if in_buf.len() < salt_size + 2 {
            return Ok(DecompressOutcome { bytes_read: in_buf.len(), bytes_written: 0 });
        }
        let rest_start: usize = if self.salt_value.is_none() {
            let salt = vstd::slice::slice_to_vec(
                vstd::slice::slice_subrange(in_buf, 0, salt_size),
            );
            let pvv = vstd::slice::slice_to_vec(
                vstd::slice::slice_subrange(in_buf, salt_size, salt_size + 2),
            );
            self.salt_value = Some(salt);
            self.password_verification_value = Some(pvv);
            salt_size + 2
        } else {
            0
        };
        match has_more_input {
            HasMoreInput::No => {
                let rest_len = in_buf.len() - rest_start;
                if rest_len >= 10 {
                    let auth = vstd::slice::slice_to_vec(
                        vstd::slice::slice_subrange(
                            in_buf,
                            in_buf.len() - 10,
                            in_buf.len(),
                        ),
                    );
                    proof {
                        assert(in_buf@.subrange(
                            in_buf@.len() - 10,
                            in_buf@.len() as int,
                        ) =~= if rest_start == 0 {
                            in_buf@
                        } else {
                            in_buf@.skip(rest_start as int)
                        }.skip(
                            (if rest_start == 0 {
                                in_buf@
                            } else {
                                in_buf@.skip(rest_start as int)
                            }).len() - 10,
                        ));
                    }
                    self.authentication_code = Some(auth);
                }
            },
            HasMoreInput::Yes => {},
        }
        let mut n = in_buf.len();
        if out.len() < n {
            n = out.len();
        }
        copy_prefix(in_buf, out, n);
        Ok(DecompressOutcome { bytes_read: n, bytes_written: n })
    }
}

/// The codec an entry's method dispatches to.
pub enum AnyDecompressor {
    /// Verbatim copy.
    Store(StoreDec),
    /// AE-x pass-through.
    Aex(AexDec),
}

/// The methods whose codecs are not part of this build.
pub open spec fn spec_method_not_enabled(m: Method) -> bool {
    ||| m == Method::Deflate
    ||| m == Method::Deflate64
    ||| m == Method::Bzip2
    ||| m == Method::Lzma
    ||| m == Method::Zstd
}

impl AnyDecompressor {
    /// Every captured piece inside has its prescribed length.
    pub open spec fn wf(self) -> bool {
        match self {
            AnyDecompressor::Store(_) => true,
            AnyDecompressor::Aex(d) => d.wf(),
        }
    }

    /// Picks the codec for a method.  Store always works; AE-x needs the
    /// entry's AE-x framing; the five real compression codecs are not part
    /// of this build; anything else is not a method this engine knows how
    /// to decompress at all.
    pub fn new(method: Method, entry: Option<&Entry>) -> (r: Result<AnyDecompressor, Error>)
        ensures
            match r {
                Ok(d) => {
                    &&& d.wf()
                    &&& method == Method::Store ==> d is Store
                    &&& method == Method::Aex ==> (d matches AnyDecompressor::Aex(a) && {
                        &&& entry matches Some(e) && e.aex matches Some(x) && a.aex == x
                        &&& a.salt_value is None
                        &&& a.password_verification_value is None
                        &&& a.authentication_code is None
                    })
                    &&& (method == Method::Store || method == Method::Aex)
                },
                Err(e) => {
                    if method == Method::Store {
                        false
                    } else if spec_method_not_enabled(method) {
                        e == Error::Unsupported(UnsupportedError::MethodNotEnabled(method))
                    } else if method == Method::Aex {
                        &&& !(entry matches Some(en) && en.aex is Some)
                        &&& e == Error::Format(FormatError::InvalidExtraField)
                    } else {
                        e == Error::Unsupported(UnsupportedError::MethodNotSupported(method))
                    }
                },
            },
    {
        match method {
            Method::Store => Ok(AnyDecompressor::Store(StoreDec)),
            Method::Deflate | Method::Deflate64 | Method::Bzip2 | Method::Lzma | Method::Zstd => {
                Err(Error::Unsupported(UnsupportedError::MethodNotEnabled(method)))
            },
            Method::Aex => {
                match entry {
                    Some(e) => match &e.aex {
                        Some(x) => Ok(AnyDecompressor::Aex(AexDec::new(*x))),
                        None => Err(Error::Format(FormatError::InvalidExtraField)),
                    },
                    None => Err(Error::Format(FormatError::InvalidExtraField)),
                }
            },
            _ => Err(Error::Unsupported(UnsupportedError::MethodNotSupported(method))),
        }
    }

    /// One decompression step, forwarded to the codec.
    ///
    /// Whatever the codec, what is written is a prefix of what is read,
    /// read bytes never exceed the input, written bytes never exceed the
    /// output buffer, and a step with input to read and room to write
    /// always reads something.
    pub fn decompress(&mut self, in_buf: &[u8], out: &mut [u8], has_more_input: HasMoreInput,
    ) -> (r: Result<DecompressOutcome, Error>)
        requires
            old(self).wf(),
        ensures
            final(self).wf(),
            final(out)@.len() == old(out)@.len(),
            *old(self) is Store <==> *final(self) is Store,
            match (*old(self), *final(self)) {
                (AnyDecompressor::Aex(a), AnyDecompressor::Aex(b)) => a.aex == b.aex,
                _ => true,
            },
            match r {
                Ok(o) => {
                    &&& o.bytes_read <= in_buf@.len()
                    &&& o.bytes_written <= o.bytes_read
                    &&& o.bytes_written <= old(out)@.len()
                    &&& final(out)@.subrange(0, o.bytes_written as int) == in_buf@.subrange(
                        0,
                        o.bytes_written as int,
                    )
                    &&& forall|j: int|
                        o.bytes_written <= j < old(out)@.len() ==> final(out)@[j] == old(out)@[j]
                    &&& in_buf@.len() > 0 && old(out)@.len() > 0 ==> o.bytes_read > 0
                    &&& *old(self) is Store ==> o.bytes_written == o.bytes_read && *final(self)
                        == *old(self) && o.bytes_read == vstd::math::min(
                        in_buf@.len() as int,
                        old(out)@.len() as int,
                    )
                    &&& (*old(self) matches AnyDecompressor::Aex(a) ==> (*final(self) matches
                    AnyDecompressor::Aex(b) && {
                        let ss = spec_salt_size(a.aex.mode).unwrap();
                        if in_buf@.len() < ss + 2 {
                            o.bytes_read == in_buf@.len() && o.bytes_written == 0 && b == a
                        } else {
                            let fresh = a.salt_value is None;
                            let rest = if fresh {
                                in_buf@.skip(ss + 2)
                            } else {
                                in_buf@
                            };
                            &&& o.bytes_read == vstd::math::min(
                                in_buf@.len() as int,
                                old(out)@.len() as int,
                            )
                            &&& if fresh {
                                &&& b.salt_value matches Some(v) && v@ == in_buf@.subrange(
                                    0,
                                    ss,
                                )
                                &&& b.password_verification_value matches Some(v) && v@
                                    == in_buf@.subrange(ss, ss + 2)
                            } else {
                                &&& b.salt_value == a.salt_value
                                &&& b.password_verification_value
                                    == a.password_verification_value
                            }
                            &&& if has_more_input is No && rest.len() >= 10 {
                                b.authentication_code matches Some(v) && v@ == rest.skip(
                                    rest.len() - 10,
                                )
                            } else {
                                b.authentication_code == a.authentication_code
                            }
                        }
                    }))
                },
                Err(e) => {
                    &&& *old(self) matches AnyDecompressor::Aex(a) && spec_salt_size(a.aex.mode)
                        is None
                    &&& e == Error::Format(FormatError::InvalidExtraField)
                    &&& final(out)@ == old(out)@
                },
            },
    {
        match self {
            AnyDecompressor::Store(dec) => Ok(dec.decompress(in_buf, out, has_more_input)),
            AnyDecompressor::Aex(dec) => dec.decompress(in_buf, out, has_more_input),
        }
    }
}

} // verus!
