//! Fields one after another: a tuple stands on the wire as its fields in
//! order, with nothing between them.

use vstd::prelude::*;
use crate::bytes::Readable;
use crate::bytes::Writeable;
use crate::codec::Codec;
use crate::codec::Reader;
use crate::codec::Writer;
use crate::error::HazelcastClientError;
use crate::error::Violation;

verus! {

impl<A: Writer, B: Writer> Writer for (A, B) {
    open spec fn wire(value: (A::V, B::V)) -> Seq<u8> {
        A::wire(value.0) + B::wire(value.1)
    }

    open spec fn fits(value: (A::V, B::V)) -> bool {
        A::fits(value.0) && B::fits(value.1)
    }

    fn write_to(&self, writeable: &mut Writeable) -> (result: Result<(), HazelcastClientError>) {
        let mark = writeable.len();
        match self.0.write_to(writeable) {
            Ok(()) => {},
            Err(error) => {
                return Err(error);
            },
        }
        match self.1.write_to(writeable) {
            Ok(()) => {},
            Err(error) => {
                writeable.truncate(mark);
                assert(writeable@ =~= old(writeable)@);
                return Err(error);
            },
        }
        assert(writeable@ =~= old(writeable)@ + Self::wire(self.deep_view()));
        Ok(())
    }
}

impl<A: Reader, B: Reader> Reader for (A, B) {
    open spec fn parse(bytes: Seq<u8>) -> Result<((A::V, B::V), Seq<u8>), Violation> {
        match A::parse(bytes) {
            Err(violation) => Err(violation),
            Ok((a, rest)) => match B::parse(rest) {
                Err(violation) => Err(violation),
                Ok((b, rest)) => Ok(((a, b), rest)),
            },
        }
    }

    fn read_from(readable: &mut Readable) -> (result: Result<(A, B), HazelcastClientError>) {
        let a = A::read_from(readable)?;
        let b = B::read_from(readable)?;
        Ok((a, b))
    }
}

impl<A: Codec, B: Codec> Codec for (A, B) {
    proof fn round_trip(value: (A::V, B::V), rest: Seq<u8>) {
        let after_b = B::wire(value.1) + rest;
        let after_a = A::wire(value.0) + after_b;
        A::round_trip(value.0, after_b);
        B::round_trip(value.1, rest);
        assert(Self::wire(value) + rest =~= after_a);
    }
}

impl<A: Writer, B: Writer, C: Writer> Writer for (A, B, C) {
    open spec fn wire(value: (A::V, B::V, C::V)) -> Seq<u8> {
        A::wire(value.0) + B::wire(value.1) + C::wire(value.2)
    }

    open spec fn fits(value: (A::V, B::V, C::V)) -> bool {
        A::fits(value.0) && B::fits(value.1) && C::fits(value.2)
    }

    fn write_to(&self, writeable: &mut Writeable) -> (result: Result<(), HazelcastClientError>) {
        let mark = writeable.len();
        match self.0.write_to(writeable) {
            Ok(()) => {},
            Err(error) => {
                return Err(error);
            },
        }
        match self.1.write_to(writeable) {
            Ok(()) => {},
            Err(error) => {
                writeable.truncate(mark);
                assert(writeable@ =~= old(writeable)@);
                return Err(error);
            },
        }
        match self.2.write_to(writeable) {
            Ok(()) => {},
            Err(error) => {
                writeable.truncate(mark);
                assert(writeable@ =~= old(writeable)@);
                return Err(error);
            },
        }
        assert(writeable@ =~= old(writeable)@ + Self::wire(self.deep_view()));
        Ok(())
    }
}

impl<A: Reader, B: Reader, C: Reader> Reader for (A, B, C) {
    open spec fn parse(bytes: Seq<u8>) -> Result<((A::V, B::V, C::V), Seq<u8>), Violation> {
        match A::parse(bytes) {
            Err(violation) => Err(violation),
            Ok((a, rest)) => match B::parse(rest) {
                Err(violation) => Err(violation),
                Ok((b, rest)) => match C::parse(rest) {
                    Err(violation) => Err(violation),
                    Ok((c, rest)) => Ok(((a, b, c), rest)),
                },
            },
        }
    }

    fn read_from(readable: &mut Readable) -> (result: Result<(A, B, C), HazelcastClientError>) {
        let a = A::read_from(readable)?;
        let b = B::read_from(readable)?;
        let c = C::read_from(readable)?;
        Ok((a, b, c))
    }
}

impl<A: Codec, B: Codec, C: Codec> Codec for (A, B, C) {
    proof fn round_trip(value: (A::V, B::V, C::V), rest: Seq<u8>) {
        let after_c = C::wire(value.2) + rest;
        let after_b = B::wire(value.1) + after_c;
        let after_a = A::wire(value.0) + after_b;
        A::round_trip(value.0, after_b);
        B::round_trip(value.1, after_c);
        C::round_trip(value.2, rest);
        assert(Self::wire(value) + rest =~= after_a);
    }
}

impl<A: Writer, B: Writer, C: Writer, D: Writer> Writer for (A, B, C, D) {
    open spec fn wire(value: (A::V, B::V, C::V, D::V)) -> Seq<u8> {
        A::wire(value.0) + B::wire(value.1) + C::wire(value.2) + D::wire(value.3)
    }

    open spec fn fits(value: (A::V, B::V, C::V, D::V)) -> bool {
        A::fits(value.0) && B::fits(value.1) && C::fits(value.2) && D::fits(value.3)
    }

    fn write_to(&self, writeable: &mut Writeable) -> (result: Result<(), HazelcastClientError>) {
        let mark = writeable.len();
        match self.0.write_to(writeable) {
            Ok(()) => {},
            Err(error) => {
                return Err(error);
            },
        }
        match self.1.write_to(writeable) {
            Ok(()) => {},
            Err(error) => {
                writeable.truncate(mark);
                assert(writeable@ =~= old(writeable)@);
                return Err(error);
            },
        }
        match self.2.write_to(writeable) {
            Ok(()) => {},
            Err(error) => {
                writeable.truncate(mark);
                assert(writeable@ =~= old(writeable)@);
                return Err(error);
            },
        }
        match self.3.write_to(writeable) {
            Ok(()) => {},
            Err(error) => {
                writeable.truncate(mark);
                assert(writeable@ =~= old(writeable)@);
                return Err(error);
            },
        }
        assert(writeable@ =~= old(writeable)@ + Self::wire(self.deep_view()));
        Ok(())
    }
}

impl<A: Reader, B: Reader, C: Reader, D: Reader> Reader for (A, B, C, D) {
    open spec fn parse(bytes: Seq<u8>) -> Result<((A::V, B::V, C::V, D::V), Seq<u8>), Violation> {
        match A::parse(bytes) {
            Err(violation) => Err(violation),
            Ok((a, rest)) => match B::parse(rest) {
                Err(violation) => Err(violation),
                Ok((b, rest)) => match C::parse(rest) {
                    Err(violation) => Err(violation),
                    Ok((c, rest)) => match D::parse(rest) {
                        Err(violation) => Err(violation),
                        Ok((d, rest)) => Ok(((a, b, c, d), rest)),
                    },
                },
            },
        }
    }

    fn read_from(readable: &mut Readable) -> (result: Result<(A, B, C, D), HazelcastClientError>) {
        let a = A::read_from(readable)?;
        let b = B::read_from(readable)?;
        let c = C::read_from(readable)?;
        let d = D::read_from(readable)?;
        Ok((a, b, c, d))
    }
}

impl<A: Codec, B: Codec, C: Codec, D: Codec> Codec for (A, B, C, D) {
    proof fn round_trip(value: (A::V, B::V, C::V, D::V), rest: Seq<u8>) {
        let after_d = D::wire(value.3) + rest;
        let after_c = C::wire(value.2) + after_d;
        let after_b = B::wire(value.1) + after_c;
        let after_a = A::wire(value.0) + after_b;
        A::round_trip(value.0, after_b);
        B::round_trip(value.1, after_c);
        C::round_trip(value.2, after_d);
        D::round_trip(value.3, rest);
        assert(Self::wire(value) + rest =~= after_a);
    }
}

impl<A: Writer, B: Writer, C: Writer, D: Writer, E: Writer> Writer for (A, B, C, D, E) {
    open spec fn wire(value: (A::V, B::V, C::V, D::V, E::V)) -> Seq<u8> {
        A::wire(value.0) + B::wire(value.1) + C::wire(value.2) + D::wire(value.3) + E::wire(value.4)
    }

    open spec fn fits(value: (A::V, B::V, C::V, D::V, E::V)) -> bool {
        A::fits(value.0) && B::fits(value.1) && C::fits(value.2) && D::fits(value.3)
            && E::fits(value.4)
    }

    fn write_to(&self, writeable: &mut Writeable) -> (result: Result<(), HazelcastClientError>) {
        let mark = writeable.len();
        match self.0.write_to(writeable) {
            Ok(()) => {},
            Err(error) => {
                return Err(error);
            },
        }
        match self.1.write_to(writeable) {
            Ok(()) => {},
            Err(error) => {
                writeable.truncate(mark);
                assert(writeable@ =~= old(writeable)@);
                return Err(error);
            },
        }
        match self.2.write_to(writeable) {
            Ok(()) => {},
            Err(error) => {
                writeable.truncate(mark);
                assert(writeable@ =~= old(writeable)@);
                return Err(error);
            },
        }
        match self.3.write_to(writeable) {
            Ok(()) => {},
            Err(error) => {
                writeable.truncate(mark);
                assert(writeable@ =~= old(writeable)@);
                return Err(error);
            },
        }
        match self.4.write_to(writeable) {
            Ok(()) => {},
            Err(error) => {
                writeable.truncate(mark);
                assert(writeable@ =~= old(writeable)@);
                return Err(error);
            },
        }
        assert(writeable@ =~= old(writeable)@ + Self::wire(self.deep_view()));
        Ok(())
    }
}

impl<A: Reader, B: Reader, C: Reader, D: Reader, E: Reader> Reader for (A, B, C, D, E) {
    open spec fn parse(bytes: Seq<u8>) -> Result<
        ((A::V, B::V, C::V, D::V, E::V), Seq<u8>),
        Violation,
    > {
        match A::parse(bytes) {
            Err(violation) => Err(violation),
            Ok((a, rest)) => match B::parse(rest) {
                Err(violation) => Err(violation),
                Ok((b, rest)) => match C::parse(rest) {
                    Err(violation) => Err(violation),
                    Ok((c, rest)) => match D::parse(rest) {
                        Err(violation) => Err(violation),
                        Ok((d, rest)) => match E::parse(rest) {
                            Err(violation) => Err(violation),
                            Ok((e, rest)) => Ok(((a, b, c, d, e), rest)),
                        },
                    },
                },
            },
        }
    }

    fn read_from(readable: &mut Readable) -> (result: Result<
        (A, B, C, D, E),
        HazelcastClientError,
    >) {
        let a = A::read_from(readable)?;
        let b = B::read_from(readable)?;
        let c = C::read_from(readable)?;
        let d = D::read_from(readable)?;
        let e = E::read_from(readable)?;
        Ok((a, b, c, d, e))
    }
}

impl<A: Codec, B: Codec, C: Codec, D: Codec, E: Codec> Codec for (A, B, C, D, E) {
    proof fn round_trip(value: (A::V, B::V, C::V, D::V, E::V), rest: Seq<u8>) {
        let after_e = E::wire(value.4) + rest;
        let after_d = D::wire(value.3) + after_e;
        let after_c = C::wire(value.2) + after_d;
        let after_b = B::wire(value.1) + after_c;
        let after_a = A::wire(value.0) + after_b;
        A::round_trip(value.0, after_b);
        B::round_trip(value.1, after_c);
        C::round_trip(value.2, after_d);
        D::round_trip(value.3, after_e);
        E::round_trip(value.4, rest);
        assert(Self::wire(value) + rest =~= after_a);
    }
}

impl<
    A: Writer,
    B: Writer,
    C: Writer,
    D: Writer,
    E: Writer,
    F: Writer,
> Writer for (A, B, C, D, E, F) {
    open spec fn wire(value: (A::V, B::V, C::V, D::V, E::V, F::V)) -> Seq<u8> {
        A::wire(value.0) + B::wire(value.1) + C::wire(value.2) + D::wire(value.3) + E::wire(value.4)
            + F::wire(value.5)
    }

    open spec fn fits(value: (A::V, B::V, C::V, D::V, E::V, F::V)) -> bool {
        A::fits(value.0) && B::fits(value.1) && C::fits(value.2) && D::fits(value.3)
            && E::fits(value.4) && F::fits(value.5)
    }

    fn write_to(&self, writeable: &mut Writeable) -> (result: Result<(), HazelcastClientError>) {
        let mark = writeable.len();
        match self.0.write_to(writeable) {
            Ok(()) => {},
            Err(error) => {
                return Err(error);
            },
        }
        match self.1.write_to(writeable) {
            Ok(()) => {},
            Err(error) => {
                writeable.truncate(mark);
                assert(writeable@ =~= old(writeable)@);
                return Err(error);
            },
        }
        match self.2.write_to(writeable) {
            Ok(()) => {},
            Err(error) => {
                writeable.truncate(mark);
                assert(writeable@ =~= old(writeable)@);
                return Err(error);
            },
        }
        match self.3.write_to(writeable) {
            Ok(()) => {},
            Err(error) => {
                writeable.truncate(mark);
                assert(writeable@ =~= old(writeable)@);
                return Err(error);
            },
        }
        match self.4.write_to(writeable) {
            Ok(()) => {},
            Err(error) => {
                writeable.truncate(mark);
                assert(writeable@ =~= old(writeable)@);
                return Err(error);
            },
        }
        match self.5.write_to(writeable) {
            Ok(()) => {},
            Err(error) => {
                writeable.truncate(mark);
                assert(writeable@ =~= old(writeable)@);
                return Err(error);
            },
        }
        assert(writeable@ =~= old(writeable)@ + Self::wire(self.deep_view()));
        Ok(())
    }
}

impl<
    A: Reader,
    B: Reader,
    C: Reader,
    D: Reader,
    E: Reader,
    F: Reader,
> Reader for (A, B, C, D, E, F) {
    open spec fn parse(bytes: Seq<u8>) -> Result<
        ((A::V, B::V, C::V, D::V, E::V, F::V), Seq<u8>),
        Violation,
    > {
        match A::parse(bytes) {
            Err(violation) => Err(violation),
            Ok((a, rest)) => match B::parse(rest) {
                Err(violation) => Err(violation),
                Ok((b, rest)) => match C::parse(rest) {
                    Err(violation) => Err(violation),
                    Ok((c, rest)) => match D::parse(rest) {
                        Err(violation) => Err(violation),
                        Ok((d, rest)) => match E::parse(rest) {
                            Err(violation) => Err(violation),
                            Ok((e, rest)) => match F::parse(rest) {
                                Err(violation) => Err(violation),
                                Ok((f, rest)) => Ok(((a, b, c, d, e, f), rest)),
                            },
                        },
                    },
                },
            },
        }
    }

    fn read_from(readable: &mut Readable) -> (result: Result<
        (A, B, C, D, E, F),
        HazelcastClientError,
    >) {
        let a = A::read_from(readable)?;
        let b = B::read_from(readable)?;
        let c = C::read_from(readable)?;
        let d = D::read_from(readable)?;
        let e = E::read_from(readable)?;
        let f = F::read_from(readable)?;
        Ok((a, b, c, d, e, f))
    }
}

impl<A: Codec, B: Codec, C: Codec, D: Codec, E: Codec, F: Codec> Codec for (A, B, C, D, E, F) {
    proof fn round_trip(value: (A::V, B::V, C::V, D::V, E::V, F::V), rest: Seq<u8>) {
        let after_f = F::wire(value.5) + rest;
        let after_e = E::wire(value.4) + after_f;
        let after_d = D::wire(value.3) + after_e;
        let after_c = C::wire(value.2) + after_d;
        let after_b = B::wire(value.1) + after_c;
        let after_a = A::wire(value.0) + after_b;
        A::round_trip(value.0, after_b);
        B::round_trip(value.1, after_c);
        C::round_trip(value.2, after_d);
        D::round_trip(value.3, after_e);
        E::round_trip(value.4, after_f);
        F::round_trip(value.5, rest);
        assert(Self::wire(value) + rest =~= after_a);
    }
}

impl<
    A: Writer,
    B: Writer,
    C: Writer,
    D: Writer,
    E: Writer,
    F: Writer,
    G: Writer,
    H: Writer,
> Writer for (A, B, C, D, E, F, G, H) {
    open spec fn wire(value: (A::V, B::V, C::V, D::V, E::V, F::V, G::V, H::V)) -> Seq<u8> {
        A::wire(value.0) + B::wire(value.1) + C::wire(value.2) + D::wire(value.3) + E::wire(value.4)
            + F::wire(value.5) + G::wire(value.6) + H::wire(value.7)
    }

    open spec fn fits(value: (A::V, B::V, C::V, D::V, E::V, F::V, G::V, H::V)) -> bool {
        A::fits(value.0) && B::fits(value.1) && C::fits(value.2) && D::fits(value.3)
            && E::fits(value.4) && F::fits(value.5) && G::fits(value.6) && H::fits(value.7)
    }

    fn write_to(&self, writeable: &mut Writeable) -> (result: Result<(), HazelcastClientError>) {
        let mark = writeable.len();
        match self.0.write_to(writeable) {
            Ok(()) => {},
            Err(error) => {
                return Err(error);
            },
        }
        match self.1.write_to(writeable) {
            Ok(()) => {},
            Err(error) => {
                writeable.truncate(mark);
                assert(writeable@ =~= old(writeable)@);
                return Err(error);
            },
        }
        match self.2.write_to(writeable) {
            Ok(()) => {},
            Err(error) => {
                writeable.truncate(mark);
                assert(writeable@ =~= old(writeable)@);
                return Err(error);
            },
        }
        match self.3.write_to(writeable) {
            Ok(()) => {},
            Err(error) => {
                writeable.truncate(mark);
                assert(writeable@ =~= old(writeable)@);
                return Err(error);
            },
        }
        match self.4.write_to(writeable) {
            Ok(()) => {},
            Err(error) => {
                writeable.truncate(mark);
                assert(writeable@ =~= old(writeable)@);
                return Err(error);
            },
        }
        match self.5.write_to(writeable) {
            Ok(()) => {},
            Err(error) => {
                writeable.truncate(mark);
                assert(writeable@ =~= old(writeable)@);
                return Err(error);
            },
        }
        match self.6.write_to(writeable) {
            Ok(()) => {},
            Err(error) => {
                writeable.truncate(mark);
                assert(writeable@ =~= old(writeable)@);
                return Err(error);
            },
        }
        match self.7.write_to(writeable) {
            Ok(()) => {},
            Err(error) => {
                writeable.truncate(mark);
                assert(writeable@ =~= old(writeable)@);
                return Err(error);
            },
        }
        assert(writeable@ =~= old(writeable)@ + Self::wire(self.deep_view()));
        Ok(())
    }
}

impl<
    A: Reader,
    B: Reader,
    C: Reader,
    D: Reader,
    E: Reader,
    F: Reader,
    G: Reader,
    H: Reader,
> Reader for (A, B, C, D, E, F, G, H) {
    open spec fn parse(bytes: Seq<u8>) -> Result<
        ((A::V, B::V, C::V, D::V, E::V, F::V, G::V, H::V), Seq<u8>),
        Violation,
    > {
        match A::parse(bytes) {
            Err(violation) => Err(violation),
            Ok((a, rest)) => match B::parse(rest) {
                Err(violation) => Err(violation),
                Ok((b, rest)) => match C::parse(rest) {
                    Err(violation) => Err(violation),
                    Ok((c, rest)) => match D::parse(rest) {
                        Err(violation) => Err(violation),
                        Ok((d, rest)) => match E::parse(rest) {
                            Err(violation) => Err(violation),
                            Ok((e, rest)) => match F::parse(rest) {
                                Err(violation) => Err(violation),
                                Ok((f, rest)) => match G::parse(rest) {
                                    Err(violation) => Err(violation),
                                    Ok((g, rest)) => match H::parse(rest) {
                                        Err(violation) => Err(violation),
                                        Ok((h, rest)) => Ok(((a, b, c, d, e, f, g, h), rest)),
                                    },
                                },
                            },
                        },
                    },
                },
            },
        }
    }

    fn read_from(readable: &mut Readable) -> (result: Result<
        (A, B, C, D, E, F, G, H),
        HazelcastClientError,
    >) {
        let a = A::read_from(readable)?;
        let b = B::read_from(readable)?;
        let c = C::read_from(readable)?;
        let d = D::read_from(readable)?;
        let e = E::read_from(readable)?;
        let f = F::read_from(readable)?;
        let g = G::read_from(readable)?;
        let h = H::read_from(readable)?;
        Ok((a, b, c, d, e, f, g, h))
    }
}

impl<
    A: Codec,
    B: Codec,
    C: Codec,
    D: Codec,
    E: Codec,
    F: Codec,
    G: Codec,
    H: Codec,
> Codec for (A, B, C, D, E, F, G, H) {
    proof fn round_trip(value: (A::V, B::V, C::V, D::V, E::V, F::V, G::V, H::V), rest: Seq<u8>) {
        let after_h = H::wire(value.7) + rest;
        let after_g = G::wire(value.6) + after_h;
        let after_f = F::wire(value.5) + after_g;
        let after_e = E::wire(value.4) + after_f;
        let after_d = D::wire(value.3) + after_e;
        let after_c = C::wire(value.2) + after_d;
        let after_b = B::wire(value.1) + after_c;
        let after_a = A::wire(value.0) + after_b;
        A::round_trip(value.0, after_b);
        B::round_trip(value.1, after_c);
        C::round_trip(value.2, after_d);
        D::round_trip(value.3, after_e);
        E::round_trip(value.4, after_f);
        F::round_trip(value.5, after_g);
        G::round_trip(value.6, after_h);
        H::round_trip(value.7, rest);
        assert(Self::wire(value) + rest =~= after_a);
    }
}

} // verus!
