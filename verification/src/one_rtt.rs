//! 1-RTT keys: the keys of the connection once the handshake is done. They
//! are replaced by key updates while the connection lives. Two generations
//! exist at any time at most: the current one, and the one before it, whose
//! opening key is kept until a deadline for packets that arrive late.

use vstd::prelude::*;
use crate::error::Error;
use crate::key::{
    opened_view, packet_open_answer, packet_seals_to, AeadKey, AeadKeyView,
    HeaderProtectionKeyView,
};
use crate::level::{Endpoint, Level};
use crate::pair::{
    derive_failure, header_pair_of, key_pair_of, HeaderKey, HeaderKeyPair, HeaderKeyPairView,
    KeyPair, KeyPairView, PacketKey,
};
use crate::secret::{
    derive_next_secret, derive_packet_key, derived_key, updated_secret, TrafficSecret,
    TrafficSecretView,
};
use crate::{GoodSecretPair, GoodSecretPairView};

verus! {

/// The bit of a short header's first byte that carries the key phase.
pub const KEY_PHASE_BIT: u8 = 0x04;

/// The bit in a short header that tells which key generation protects the
/// packet.
#[derive(Clone, Copy, Debug, PartialEq, Eq, Structural)]
pub enum KeyPhase {
    Zero,
    One,
}

impl KeyPhase {
    pub open spec fn spec_flipped(self) -> KeyPhase {
        match self {
            KeyPhase::Zero => KeyPhase::One,
            KeyPhase::One => KeyPhase::Zero,
        }
    }

    /// The other phase.
    #[verifier::when_used_as_spec(spec_flipped)]
    pub fn flipped(self) -> (other: KeyPhase)
        ensures
            other == self.spec_flipped(),
            other != self,
            other.spec_flipped() == self,
    {
        match self {
            KeyPhase::Zero => KeyPhase::One,
            KeyPhase::One => KeyPhase::Zero,
        }
    }

    /// The phase that the unprotected first byte of a short header carries.
    pub open spec fn spec_of_first_byte(first: u8) -> KeyPhase {
        if first & KEY_PHASE_BIT == 0 {
            KeyPhase::Zero
        } else {
            KeyPhase::One
        }
    }

    /// Reads the phase from the unprotected first byte of a short header.
    #[verifier::when_used_as_spec(spec_of_first_byte)]
    pub fn of_first_byte(first: u8) -> (phase: KeyPhase)
        ensures
            phase == KeyPhase::spec_of_first_byte(first),
    {
        if first & KEY_PHASE_BIT == 0 {
            KeyPhase::Zero
        } else {
            KeyPhase::One
        }
    }

    /// `first` with its key phase bit set to this phase.
    pub open spec fn spec_mark(self, first: u8) -> u8 {
        match self {
            KeyPhase::Zero => first & !KEY_PHASE_BIT,
            KeyPhase::One => first | KEY_PHASE_BIT,
        }
    }

    /// Writes the phase into the unprotected first byte of a short header
    /// and leaves the other bits as they are.
    #[verifier::when_used_as_spec(spec_mark)]
    pub fn mark(self, first: u8) -> (marked: u8)
        ensures
            marked == self.spec_mark(first),
            KeyPhase::spec_of_first_byte(marked) == self,
            marked & !KEY_PHASE_BIT == first & !KEY_PHASE_BIT,
    {
        match self {
            KeyPhase::Zero => {
                let marked: u8 = first & !KEY_PHASE_BIT;
                assert(marked & 0x04 == 0 && marked & !0x04u8 == first & !0x04u8) by (bit_vector)
                    requires
                        marked == first & !0x04u8,
                ;
                marked
            },
            KeyPhase::One => {
                let marked: u8 = first | KEY_PHASE_BIT;
                assert(marked & 0x04 != 0 && marked & !0x04u8 == first & !0x04u8) by (bit_vector)
                    requires
                        marked == first | 0x04u8,
                ;
                marked
            },
        }
    }
}

/// What is kept of the generation before the current one.
pub struct RetiredView {
    pub opener: AeadKeyView,
    pub retain_until: u64,
}

/// What a [`OneRttKey`] holds.
pub struct OneRttKeyView {
    pub phase: KeyPhase,
    pub sealer_secret: TrafficSecretView,
    pub opener_secret: TrafficSecretView,
    pub keys: KeyPairView,
    pub previous: Option<RetiredView>,
}

impl OneRttKeyView {
    /// Both secrets have the size of their suite's hash, so that the next
    /// generation can be derived from them.
    pub open spec fn secrets_wf(self) -> bool {
        self.sealer_secret.wf() && self.opener_secret.wf()
    }

    /// The current keys are the keys of the current secrets.
    pub open spec fn consistent(self) -> bool {
        &&& self.keys.sealer == derived_key(self.sealer_secret)
        &&& self.keys.opener == derived_key(self.opener_secret)
    }

    /// The generation that follows this one. Its secrets come from this
    /// one's secrets, not from its keys; the phase flips; and this one's
    /// opening key is kept until `retain_until`.
    pub open spec fn updated(self, retain_until: u64) -> OneRttKeyView {
        OneRttKeyView {
            phase: self.phase.spec_flipped(),
            sealer_secret: updated_secret(self.sealer_secret),
            opener_secret: updated_secret(self.opener_secret),
            keys: KeyPairView {
                sealer: derived_key(updated_secret(self.sealer_secret)),
                opener: derived_key(updated_secret(self.opener_secret)),
            },
            previous: Some(RetiredView { opener: self.keys.opener, retain_until }),
        }
    }

    /// The key under which a packet of `phase` that arrives at `now` is
    /// opened: the current key for the current phase; for the other phase
    /// the key of the generation before, as long as it is kept; else none.
    pub open spec fn opening_key(self, phase: KeyPhase, now: u64) -> Option<AeadKeyView> {
        if phase == self.phase {
            Some(self.keys.opener)
        } else {
            match self.previous {
                Some(retired) => if now <= retired.retain_until {
                    Some(retired.opener)
                } else {
                    None
                },
                None => None,
            }
        }
    }

    /// Whether the generation before is past its deadline at `now`.
    pub open spec fn previous_expired(self, now: u64) -> bool {
        self.previous matches Some(retired) && now > retired.retain_until
    }
}

/// The first 1-RTT generation of `endpoint`, in phase zero.
pub open spec fn first_generation(endpoint: Endpoint, secrets: GoodSecretPairView) -> OneRttKeyView {
    OneRttKeyView {
        phase: KeyPhase::Zero,
        sealer_secret: secrets.of(endpoint),
        opener_secret: secrets.of(endpoint.spec_peer()),
        keys: key_pair_of(endpoint, secrets),
        previous: None,
    }
}

/// Two endpoints of one connection are in step: they are in the same phase
/// and each sends under the secret under which the other receives.
pub open spec fn in_step(a: OneRttKeyView, b: OneRttKeyView) -> bool {
    &&& a.phase == b.phase
    &&& a.sealer_secret == b.opener_secret
    &&& a.opener_secret == b.sealer_secret
    &&& a.consistent()
    &&& b.consistent()
}

/// The opening key of a generation that was replaced, with its deadline.
struct Retired {
    opener: AeadKey,
    retain_until: u64,
}

/// The packet keys at the 1-RTT level.
pub struct OneRttKey {
    phase: KeyPhase,
    sealer_secret: TrafficSecret,
    opener_secret: TrafficSecret,
    keys: KeyPair,
    previous: Option<Retired>,
}

/// The header protection keys at the 1-RTT level. Key updates leave them as
/// they are.
pub struct OneRttHeaderKey {
    keys: HeaderKeyPair,
}

impl OneRttKey {
    pub closed spec fn view(&self) -> OneRttKeyView {
        OneRttKeyView {
            phase: self.phase,
            sealer_secret: self.sealer_secret@,
            opener_secret: self.opener_secret@,
            keys: self.keys@,
            previous: match self.previous {
                Some(retired) => Some(
                    RetiredView { opener: retired.opener@, retain_until: retired.retain_until },
                ),
                None => None,
            },
        }
    }

    /// Derives the first 1-RTT generation of `endpoint` from the
    /// application traffic secrets.
    ///
    /// Fails with `UnsupportedCipherSuite` exactly where the two secrets
    /// are for different suites, and with `InvalidKeyMaterial` exactly where
    /// they are for one suite and one of them does not have the size of its
    /// hash. Succeeds otherwise.
    pub fn new(endpoint: Endpoint, secrets: &GoodSecretPair) -> (keys: Result<
        (OneRttKey, OneRttHeaderKey),
        Error,
    >)
        ensures
            match derive_failure(Level::OneRtt, secrets@) {
                Some(error) => keys matches Err(e) && e == error,
                None => keys is Ok,
            },
            keys matches Ok((key, header_key)) ==> {
                &&& key@ == first_generation(endpoint, secrets@)
                &&& key@.consistent()
                &&& key@.secrets_wf()
                &&& header_key@ == header_pair_of(endpoint, secrets@)
            },
    {
        match KeyPair::derive(endpoint, secrets, Level::OneRtt) {
            Ok((keys, header_keys)) => {
                let key = OneRttKey {
                    phase: KeyPhase::Zero,
                    sealer_secret: secrets.secret_of(endpoint).duplicate(),
                    opener_secret: secrets.secret_of(endpoint.peer()).duplicate(),
                    keys,
                    previous: None,
                };
                Ok((key, OneRttHeaderKey { keys: header_keys }))
            },
            Err(e) => Err(e),
        }
    }

    /// Derives the first 1-RTT generation of the server. Succeeds and
    /// fails as `new` does.
    pub fn new_server(secrets: &GoodSecretPair) -> (keys: Result<(OneRttKey, OneRttHeaderKey), Error>)
        ensures
            match derive_failure(Level::OneRtt, secrets@) {
                Some(error) => keys matches Err(e) && e == error,
                None => keys is Ok,
            },
            keys matches Ok((key, header_key)) ==> {
                &&& key@ == first_generation(Endpoint::Server, secrets@)
                &&& key@.consistent()
                &&& key@.secrets_wf()
                &&& header_key@ == header_pair_of(Endpoint::Server, secrets@)
            },
    {
        OneRttKey::new(Endpoint::Server, secrets)
    }

    /// Derives the first 1-RTT generation of the client. Succeeds and
    /// fails as `new` does.
    pub fn new_client(secrets: &GoodSecretPair) -> (keys: Result<(OneRttKey, OneRttHeaderKey), Error>)
        ensures
            match derive_failure(Level::OneRtt, secrets@) {
                Some(error) => keys matches Err(e) && e == error,
                None => keys is Ok,
            },
            keys matches Ok((key, header_key)) ==> {
                &&& key@ == first_generation(Endpoint::Client, secrets@)
                &&& key@.consistent()
                &&& key@.secrets_wf()
                &&& header_key@ == header_pair_of(Endpoint::Client, secrets@)
            },
    {
        OneRttKey::new(Endpoint::Client, secrets)
    }

    /// The phase of the current generation, which goes into the header of
    /// every packet that is sealed.
    pub fn phase(&self) -> (phase: KeyPhase)
        ensures
            phase == self@.phase,
    {
        self.phase
    }

    /// Whether the opening key of the generation before is still held.
    pub fn holds_previous(&self) -> (held: bool)
        ensures
            held == self@.previous.is_some(),
    {
        self.previous.is_some()
    }

    /// Puts the next key generation together from secrets and keys that
    /// were derived for it: the phase flips, and this generation's opening
    /// key goes with the new one and stays usable there until
    /// `retain_until`.
    pub fn followed_by(
        &self,
        sealer_secret: TrafficSecret,
        opener_secret: TrafficSecret,
        keys: KeyPair,
        retain_until: u64,
    ) -> (next: OneRttKey)
        ensures
            next@ == (OneRttKeyView {
                phase: self@.phase.spec_flipped(),
                sealer_secret: sealer_secret@,
                opener_secret: opener_secret@,
                keys: keys@,
                previous: Some(RetiredView { opener: self@.keys.opener, retain_until }),
            }),
    {
        let retired = Retired { opener: self.keys.opener().duplicate(), retain_until };
        OneRttKey {
            phase: self.phase.flipped(),
            sealer_secret,
            opener_secret,
            keys,
            previous: Some(retired),
        }
    }

    /// Produces the next key generation. This generation's opening key goes
    /// with it and stays usable there until `retain_until`, on the clock
    /// from which the caller takes `now` when opening.
    ///
    /// Succeeds exactly where both secrets have the size of their suite's
    /// hash, as they have in every generation that was derived, and the
    /// secrets of the new generation have it again. Fails with
    /// `InvalidKeyMaterial` otherwise.
    pub fn update(&self, retain_until: u64) -> (next: Result<OneRttKey, Error>)
        ensures
            next is Ok <==> self@.secrets_wf(),
            next matches Ok(key) ==> {
                &&& key@ == self@.updated(retain_until)
                &&& key@.consistent()
                &&& key@.secrets_wf()
            },
            next matches Err(e) ==> e == Error::InvalidKeyMaterial,
    {
        let sealer_secret = match derive_next_secret(&self.sealer_secret) {
            Ok(secret) => secret,
            Err(e) => { return Err(e); },
        };
        let opener_secret = match derive_next_secret(&self.opener_secret) {
            Ok(secret) => secret,
            Err(e) => { return Err(e); },
        };
        let sealer = match derive_packet_key(&sealer_secret) {
            Ok(key) => key,
            Err(e) => { return Err(e); },
        };
        let opener = match derive_packet_key(&opener_secret) {
            Ok(key) => key,
            Err(e) => { return Err(e); },
        };
        Ok(self.followed_by(sealer_secret, opener_secret, KeyPair::new(sealer, opener), retain_until))
    }

    /// Authenticates the protected payload of a packet whose header carries
    /// `phase` and which arrived at `now`.
    ///
    /// A packet of the current phase is opened under the current key. A
    /// packet of the other phase is opened under the key of the generation
    /// before, if that is still held and `now` is not past its deadline;
    /// else it fails with `AuthenticationFailure`. Under the key that is
    /// chosen, it succeeds exactly where `protected` is the sealing of some
    /// payload, and fails with `AuthenticationFailure` otherwise.
    pub fn open_in_phase(
        &self,
        phase: KeyPhase,
        now: u64,
        packet_number: u64,
        header: &[u8],
        protected: &[u8],
    ) -> (opened: Result<(Vec<u8>, u64), Error>)
        ensures
            match self@.opening_key(phase, now) {
                Some(key) => packet_open_answer(
                    key,
                    packet_number,
                    header@,
                    protected@,
                    opened_view(opened),
                ),
                None => opened == Err::<(Vec<u8>, u64), Error>(Error::AuthenticationFailure),
            },
    {
        if phase == self.phase {
            self.keys.open(packet_number, header, protected)
        } else {
            match &self.previous {
                Some(retired) => {
                    if now <= retired.retain_until {
                        retired.opener.open(packet_number, header, protected)
                    } else {
                        Err(Error::AuthenticationFailure)
                    }
                },
                None => Err(Error::AuthenticationFailure),
            }
        }
    }

    /// Discards the opening key of the generation before, if it is past its
    /// deadline at `now`: the key is given up, and overwritten with zeros as
    /// every key is that is dropped. Answers whether it did.
    pub fn discard_previous(&mut self, now: u64) -> (discarded: bool)
        ensures
            discarded == old(self)@.previous_expired(now),
            final(self)@.previous == if discarded {
                None
            } else {
                old(self)@.previous
            },
            final(self)@.phase == old(self)@.phase,
            final(self)@.sealer_secret == old(self)@.sealer_secret,
            final(self)@.opener_secret == old(self)@.opener_secret,
            final(self)@.keys == old(self)@.keys,
    {
        let expired = match &self.previous {
            Some(retired) => now > retired.retain_until,
            None => false,
        };
        if expired {
            self.previous = None;
        }
        expired
    }

    /// Overwrites every secret and key with zeros and gives up the
    /// generation before.
    pub fn zeroize(&mut self)
        ensures
            final(self)@.phase == old(self)@.phase,
            final(self)@.previous.is_none(),
            final(self)@.sealer_secret.bytes == Seq::new(
                old(self)@.sealer_secret.bytes.len(),
                |i: int| 0u8,
            ),
            final(self)@.opener_secret.bytes == Seq::new(
                old(self)@.opener_secret.bytes.len(),
                |i: int| 0u8,
            ),
            final(self)@.keys.sealer.key == Seq::new(old(self)@.keys.sealer.key.len(), |i: int| 0u8),
            final(self)@.keys.sealer.iv == Seq::new(old(self)@.keys.sealer.iv.len(), |i: int| 0u8),
            final(self)@.keys.opener.key == Seq::new(old(self)@.keys.opener.key.len(), |i: int| 0u8),
            final(self)@.keys.opener.iv == Seq::new(old(self)@.keys.opener.iv.len(), |i: int| 0u8),
    {
        self.sealer_secret.zeroize();
        self.opener_secret.zeroize();
        self.keys.zeroize();
        self.previous = None;
    }
}

impl PacketKey for OneRttKey {
    open spec fn sealer(&self) -> AeadKeyView {
        self@.keys.sealer
    }

    open spec fn opener(&self) -> AeadKeyView {
        self@.keys.opener
    }

    fn seal(&self, packet_number: u64, header: &[u8], payload: &[u8]) -> (protected: Result<
        Vec<u8>,
        Error,
    >) {
        self.keys.seal(packet_number, header, payload)
    }

    fn open(&self, packet_number: u64, header: &[u8], protected: &[u8]) -> (opened: Result<
        (Vec<u8>, u64),
        Error,
    >) {
        self.keys.open(packet_number, header, protected)
    }
}

impl OneRttHeaderKey {
    pub closed spec fn view(&self) -> HeaderKeyPairView {
        self.keys@
    }

    /// Overwrites the keys with zeros.
    pub fn zeroize(&mut self)
        ensures
            final(self)@.sealer.key == Seq::new(old(self)@.sealer.key.len(), |i: int| 0u8),
            final(self)@.opener.key == Seq::new(old(self)@.opener.key.len(), |i: int| 0u8),
    {
        self.keys.zeroize();
    }
}

impl HeaderKey for OneRttHeaderKey {
    open spec fn sealer(&self) -> HeaderProtectionKeyView {
        self@.sealer
    }

    open spec fn opener(&self) -> HeaderProtectionKeyView {
        self@.opener
    }

    fn compute_header_protection_mask(&self, sample: &[u8]) -> (mask: Result<[u8; 5], Error>) {
        self.keys.compute_header_protection_mask(sample)
    }

    fn compute_sealing_mask(&self, sample: &[u8]) -> (mask: Result<[u8; 5], Error>) {
        self.keys.compute_sealing_mask(sample)
    }
}

/// The first generations of the two endpoints are in step.
pub proof fn lemma_first_generations_in_step(secrets: GoodSecretPairView)
    ensures
        in_step(
            first_generation(Endpoint::Client, secrets),
            first_generation(Endpoint::Server, secrets),
        ),
{
}

/// Endpoints that are in step stay in step when both update, whatever
/// deadlines they choose: packets that one seals under its new generation
/// are opened by the other under its new generation.
pub proof fn lemma_updates_stay_in_step(
    a: OneRttKeyView,
    b: OneRttKeyView,
    a_retain_until: u64,
    b_retain_until: u64,
)
    requires
        in_step(a, b),
    ensures
        in_step(a.updated(a_retain_until), b.updated(b_retain_until)),
        a.updated(a_retain_until).keys.sealer == b.updated(b_retain_until).keys.opener,
        b.updated(b_retain_until).keys.sealer == a.updated(a_retain_until).keys.opener,
{
}

/// After an update the phase has flipped. Packets of the new phase are
/// opened under the new key. Packets of the old phase are opened under the
/// key they were sealed for as long as the deadline has not passed, and
/// fail authentication afterwards.
pub proof fn lemma_update_keeps_previous_generation(
    key: OneRttKeyView,
    retain_until: u64,
    now: u64,
)
    ensures
        key.updated(retain_until).phase == key.phase.spec_flipped(),
        key.updated(retain_until).phase != key.phase,
        key.updated(retain_until).opening_key(key.updated(retain_until).phase, now) == Some(
            key.updated(retain_until).keys.opener,
        ),
        now <= retain_until ==> key.updated(retain_until).opening_key(key.phase, now) == Some(
            key.keys.opener,
        ),
        now > retain_until ==> key.updated(retain_until).opening_key(key.phase, now)
            == None::<AeadKeyView>,
{
}

/// A packet that was sealed before the peer updated is still opened after
/// this endpoint has updated, until the deadline: opening it in its own
/// phase hands out the payload that was sealed.
pub proof fn lemma_late_packet_still_opens(
    receiver: OneRttKeyView,
    sender: OneRttKeyView,
    retain_until: u64,
    now: u64,
    packet_number: u64,
    header: Seq<u8>,
    payload: Seq<u8>,
    protected: Seq<u8>,
    answer: Result<(Seq<u8>, u64), Error>,
)
    requires
        in_step(receiver, sender),
        now <= retain_until,
        packet_seals_to(sender.keys.sealer, packet_number, header, payload, protected),
        packet_open_answer(
            receiver.updated(retain_until).opening_key(sender.phase, now)->Some_0,
            packet_number,
            header,
            protected,
            answer,
        ),
    ensures
        receiver.updated(retain_until).opening_key(sender.phase, now) == Some(sender.keys.sealer),
        answer == Ok::<(Seq<u8>, u64), Error>((payload, packet_number)),
{
}

/// After both endpoints have updated, what one seals under its new
/// generation the other opens under its new generation, in the new phase.
pub proof fn lemma_new_generation_opens_new_packets(
    sender: OneRttKeyView,
    receiver: OneRttKeyView,
    sender_retain_until: u64,
    receiver_retain_until: u64,
    now: u64,
    packet_number: u64,
    header: Seq<u8>,
    payload: Seq<u8>,
    protected: Seq<u8>,
    answer: Result<(Seq<u8>, u64), Error>,
)
    requires
        in_step(sender, receiver),
        packet_seals_to(
            sender.updated(sender_retain_until).keys.sealer,
            packet_number,
            header,
            payload,
            protected,
        ),
        packet_open_answer(
            receiver.updated(receiver_retain_until).opening_key(
                sender.updated(sender_retain_until).phase,
                now,
            )->Some_0,
            packet_number,
            header,
            protected,
            answer,
        ),
    ensures
        sender.updated(sender_retain_until).phase == receiver.updated(receiver_retain_until).phase,
        receiver.updated(receiver_retain_until).opening_key(
            sender.updated(sender_retain_until).phase,
            now,
        ) == Some(sender.updated(sender_retain_until).keys.sealer),
        answer == Ok::<(Seq<u8>, u64), Error>((payload, packet_number)),
{
}

/// A packet of the new generation that is opened under the key of the old
/// one fails authentication, unless the same bytes are also the sealing of
/// some payload under the old key.
pub proof fn lemma_old_generation_rejects_new_packets(
    old_opener: AeadKeyView,
    packet_number: u64,
    header: Seq<u8>,
    protected: Seq<u8>,
    answer: Result<(Seq<u8>, u64), Error>,
)
    requires
        packet_open_answer(old_opener, packet_number, header, protected, answer),
    ensures
        answer == Err::<(Seq<u8>, u64), Error>(Error::AuthenticationFailure) || (answer matches Ok(
            (other, _),
        ) && packet_seals_to(old_opener, packet_number, header, other, protected)),
{
    if let Ok((other, _)) = answer {
        assert(packet_seals_to(old_opener, packet_number, header, other, protected));
    }
}

} // verus!
