//! The client's handshake in TLS1.3: the steps up to the keys of the handshake.

pub mod finish;
pub mod laws;
pub mod secrets;
pub mod states;
pub mod traffic;

use super::common::{
    ClientHelloDetails, ClientHelloDetailsView, HandshakeDetails, HandshakeDetailsView,
};
use super::hs::{aligned_checked, check_aligned_handshake, illegal_param};
use super::{ClientSession, EarlyData, EarlyDataState, Hooks, SessionView, StoresClientSessions};
use crate::codec::{be16, views, Codec};
use crate::crypto::{generated_in, group_of, HashAlgorithm};
use crate::enums::{AlertDescription, ContentType, ExtensionType, NamedGroup, ProtocolVersion};
use crate::error::{misbehaved, seen, TlsError, TlsErrorView};
use crate::extensions::{
    has_duplicate_extension, has_duplicates, ClientExtension, ClientExtensionView, KeyShareEntry,
    KeyShareEntryView, PresharedKeyIdentity, PresharedKeyIdentityView, PresharedKeyOffer,
    PresharedKeyOfferView, ServerExtension, ServerExtensionView, TypedExtension,
};
use crate::handshake::{
    binder_does_not_sign_itself, HandshakeMessagePayload, HandshakeMessageView, HandshakePayload,
    HelloRetryRequest, HelloRetryRequestView, ServerHelloPayload, ServerHelloView,
};
use crate::hash_hs::{HandshakeHash, TranscriptView};
use crate::key_log::KeyLogLabel;
use crate::key_schedule::{
    derive_traffic_keys, traffic_keys, zero_bytes, zeroes, KeyScheduleEarly, KeyScheduleHandshake,
    KeyScheduleHandshakeView, KeyScheduleNonSecret, KeyScheduleView, Label,
};
use crate::kx::{
    group_named, started_with, KeyExchange, KeyExchangeResult, KeyExchangeView,
};
use crate::message::{ChangeCipherSpecPayload, Message, MessagePayload, MessageView};
use crate::persist::{
    session_key, ClientSessionKey, ClientSessionValueWithResolvedCipherSuite, ResumptionView,
    SessionKeyKind,
};
use crate::pki::ServerName;
use crate::session::{CommonView, QuicView, Secrets, SecretsView, SessionRandoms};
use crate::suites::SupportedCipherSuite;
use crate::ticketer::{clock_read, TimeBase};
use vstd::prelude::*;

verus! {

/// The extensions that a ServerHello carries in the clear.
pub open spec fn allowed_plaintext(typ: ExtensionType) -> bool {
    typ == ExtensionType::KeyShare || typ == ExtensionType::PreSharedKey || typ
        == ExtensionType::SupportedVersions
}

fn is_allowed_plaintext(typ: ExtensionType) -> (r: bool)
    ensures
        r == allowed_plaintext(typ),
{
    typ == ExtensionType::KeyShare || typ == ExtensionType::PreSharedKey || typ
        == ExtensionType::SupportedVersions
}

/// The extensions that a client offers for the sake of older versions, and that have no
/// place in TLS1.3.
pub open spec fn disallowed_tls13(typ: ExtensionType) -> bool {
    typ == ExtensionType::ECPointFormats || typ == ExtensionType::SessionTicket || typ
        == ExtensionType::RenegotiationInfo || typ == ExtensionType::ExtendedMasterSecret
}

fn is_disallowed_tls13(typ: ExtensionType) -> (r: bool)
    ensures
        r == disallowed_tls13(typ),
{
    typ == ExtensionType::ECPointFormats || typ == ExtensionType::SessionTicket || typ
        == ExtensionType::RenegotiationInfo || typ == ExtensionType::ExtendedMasterSecret
}

/// The outcome of looking at the extensions of a ServerHello.
pub open spec fn server_hello_validated<T: Hooks>(
    s: SessionView<T>,
    exts: Seq<ServerExtensionView>,
) -> (Result<(), TlsErrorView>, SessionView<T>) {
    if exists|i: int| 0 <= i < exts.len() && !allowed_plaintext((#[trigger] exts[i]).typ()) {
        (
            Err(misbehaved("server sent unexpected cleartext ext")),
            s.alerted(AlertDescription::UnsupportedExtension),
        )
    } else {
        (Ok(()), s)
    }
}

/// Refuses a ServerHello with extensions that do not belong into the clear.
pub fn validate_server_hello<T: Hooks>(
    sess: &mut ClientSession<T>,
    server_hello: &ServerHelloPayload,
) -> (r: Result<(), TlsError>)
    ensures
        (seen(r), final(sess)@) == server_hello_validated(
            old(sess)@,
            server_hello@.extensions,
        ),
{
    let ghost exts = server_hello@.extensions;
    let mut i: usize = 0;
    while i < server_hello.extensions.len()
        invariant
            *sess == *old(sess),
            i <= server_hello.extensions@.len(),
            exts == views(server_hello.extensions@),
            forall|j: int| 0 <= j < i ==> allowed_plaintext((#[trigger] exts[j]).typ()),
        decreases server_hello.extensions@.len() - i,
    {
        let typ: ExtensionType = server_hello.extensions[i].get_type();
        assert(exts[i as int] == server_hello.extensions@[i as int]@);
        assert(ServerExtension::kind(exts[i as int]) == exts[i as int].typ());
        if !is_allowed_plaintext(typ) {
            sess.common.send_fatal_alert(AlertDescription::UnsupportedExtension);
            return Err(
                TlsError::PeerMisbehavedError("server sent unexpected cleartext ext".to_string()),
            );
        }
        i += 1;
    }
    Ok(())
}

/// The group that a server is remembered to like.
pub open spec fn kx_hint<T: Hooks>(s: SessionView<T>, name: Seq<u8>) -> Option<NamedGroup> {
    match T::Store::stored(s.config.store, session_key(SessionKeyKind::KxHint, name)) {
        Some(bytes) => match NamedGroup::decoding(bytes) {
            Some((group, _)) => Some(group),
            None => None,
        },
        None => None,
    }
}

/// The group that a server is remembered to like.
pub fn find_kx_hint<T: Hooks>(sess: &ClientSession<T>, dns_name: &ServerName) -> (r: Option<
    NamedGroup,
>)
    ensures
        r == kx_hint(sess@, dns_name@),
{
    let key: ClientSessionKey = ClientSessionKey::hint_for_server_name(dns_name);
    let key_buf: Vec<u8> = key.get_encoding();
    assert(key_buf@ == session_key(SessionKeyKind::KxHint, dns_name@));
    match sess.config.session_persistence.get(key_buf.as_slice()) {
        Some(bytes) => NamedGroup::read_bytes(bytes.as_slice()),
        None => None,
    }
}

/// The session after the group that a server likes has been given to the store.
pub open spec fn kx_hint_saved<T: Hooks>(
    s: SessionView<T>,
    name: Seq<u8>,
    group: NamedGroup,
) -> SessionView<T> {
    s.with_put(session_key(SessionKeyKind::KxHint, name), be16(group.wire()))
}

/// Remembers the group that a server likes.
pub fn save_kx_hint<T: Hooks>(
    sess: &mut ClientSession<T>,
    dns_name: &ServerName,
    group: NamedGroup,
)
    ensures
        final(sess)@ == kx_hint_saved(old(sess)@, dns_name@, group),
{
    let key: ClientSessionKey = ClientSessionKey::hint_for_server_name(dns_name);
    let key_buf: Vec<u8> = key.get_encoding();
    let value: Vec<u8> = group.get_encoding();
    assert(key_buf@ == session_key(SessionKeyKind::KxHint, dns_name@));
    assert(value@ == be16(group.wire()));
    let _ = sess.config.session_persistence.put(key_buf, value);
}

/// A group that was remembered is the one that is recalled, if the store kept it.
pub proof fn saved_hint_is_found<T: Hooks>(s: SessionView<T>, name: Seq<u8>, group: NamedGroup)
    requires
        NamedGroup::of_wire(group.wire()) == group,
        T::Store::stored(
            kx_hint_saved(s, name, group).config.store,
            session_key(SessionKeyKind::KxHint, name),
        ) == Some(be16(group.wire())),
    ensures
        kx_hint(kx_hint_saved(s, name, group), name) == Some(group),
{
    crate::codec::u16_round_trip(group.wire(), Seq::empty());
    assert(be16(group.wire()) + Seq::<u8>::empty() =~= be16(group.wire()));
}

/// The group to offer a key share in: the one that the server asked for, or else the one
/// that it is remembered to like, or else the first that is configured.
pub open spec fn chosen_group<T: Hooks>(
    s: SessionView<T>,
    name: Seq<u8>,
    retryreq: Option<HelloRetryRequestView>,
) -> Option<NamedGroup> {
    let requested = match retryreq {
        Some(req) => req.requested_key_share_group(),
        None => None,
    };
    match requested {
        Some(group) => Some(group),
        None => match kx_hint(s, name) {
            Some(group) => Some(group),
            None => if s.config.kx_groups.len() > 0 {
                Some(s.config.kx_groups[0].spec_name())
            } else {
                None
            },
        },
    }
}

pub open spec fn retry_view(retryreq: Option<&HelloRetryRequest>) -> Option<HelloRetryRequestView> {
    match retryreq {
        Some(req) => Some(req@),
        None => None,
    }
}

/// The extensions and the hello after the offer of a key share, or of none.
pub open spec fn share_offered(
    exts: Seq<ClientExtensionView>,
    hello: ClientHelloDetailsView,
    group: NamedGroup,
    share: Option<KeyExchangeView>,
) -> (Seq<ClientExtensionView>, ClientHelloDetailsView) {
    match share {
        Some(share) => (
            exts.push(
                ClientExtensionView::KeyShare(
                    seq![KeyShareEntryView { group, payload: share.pubkey }],
                ),
            ),
            ClientHelloDetailsView {
                offered_key_shares: hello.offered_key_shares.push(share),
                ..hello
            },
        ),
        None => (exts.push(ClientExtensionView::KeyShare(Seq::empty())), hello),
    }
}

/// Offers a key share, or none.
pub fn offer_key_share(
    exts: &mut Vec<ClientExtension>,
    hello: &mut ClientHelloDetails,
    group: NamedGroup,
    share: Option<KeyExchange>,
)
    ensures
        (views(final(exts)@), final(hello)@) == share_offered(
            views(old(exts)@),
            old(hello)@,
            group,
            match share {
                Some(share) => Some(share@),
                None => None,
            },
        ),
{
    let ghost exts_before = exts@;
    let ghost shares_before = hello.offered_key_shares@;
    let mut key_shares: Vec<KeyShareEntry> = Vec::new();
    match share {
        Some(share) => {
            let entry: KeyShareEntry = KeyShareEntry::new(group, share.pubkey.as_slice());
            let ghost entry_view = entry@;
            key_shares.push(entry);
            assert(views(key_shares@) =~= seq![entry_view]);
            let ghost share_view = share@;
            hello.offered_key_shares.push(share);
            assert(views(hello.offered_key_shares@) =~= views(shares_before).push(share_view));
        },
        None => {
            assert(views(key_shares@) =~= Seq::<KeyShareEntryView>::empty());
        },
    }
    let ext: ClientExtension = ClientExtension::KeyShare(key_shares);
    let ghost ext_view = ext@;
    exts.push(ext);
    assert(views(exts@) =~= views(exts_before).push(ext_view));
}

/// What the choice of key shares may come to. A share that was offered before is offered
/// again as it was; for a new one a key is generated, and none is offered only if that failed.
pub open spec fn kx_groups_chosen<T: Hooks>(
    s: SessionView<T>,
    exts: Seq<ClientExtensionView>,
    hello: ClientHelloDetailsView,
    group: NamedGroup,
    outcome: (Seq<ClientExtensionView>, ClientHelloDetailsView),
) -> bool {
    match hello.share(group) {
        Some(share) => outcome == share_offered(
            exts,
            hello.without_share(group),
            group,
            Some(share),
        ),
        None => match group_named(s.config.kx_groups, group) {
            Some(supported) => exists|privkey: Option<ring::agreement::EphemeralPrivateKey>|
                #[trigger] generated_in(supported, privkey) && (privkey matches Some(key)
                    ==> group_of(key) == supported) && outcome == share_offered(
                    exts,
                    hello,
                    group,
                    started_with(supported, privkey),
                ),
            None => outcome == share_offered(exts, hello, group, None),
        },
    }
}

/// Chooses the group to offer a key share in, and offers one.
pub fn choose_kx_groups<T: Hooks>(
    sess: &ClientSession<T>,
    exts: &mut Vec<ClientExtension>,
    hello: &mut ClientHelloDetails,
    dns_name: &ServerName,
    retryreq: Option<&HelloRetryRequest>,
)
    requires
        chosen_group(sess@, dns_name@, retry_view(retryreq)) is Some,
    ensures
        kx_groups_chosen(
            sess@,
            views(old(exts)@),
            old(hello)@,
            chosen_group(sess@, dns_name@, retry_view(retryreq))->0,
            (views(final(exts)@), final(hello)@),
        ),
{
    let requested: Option<NamedGroup> = match retryreq {
        Some(req) => req.get_requested_key_share_group(),
        None => None,
    };
    let group: NamedGroup = match requested {
        Some(group) => group,
        None => match find_kx_hint(sess, dns_name) {
            Some(group) => group,
            None => sess.config.kx_groups[0].name(),
        },
    };
    // A share that was offered before a HelloRetryRequest must not be altered.
    match hello.find_key_share(group) {
        Some(share) => offer_key_share(exts, hello, group, Some(share)),
        None => {
            let started: Option<KeyExchange> = match KeyExchange::find_group(
                group,
                &sess.config.kx_groups,
            ) {
                Some(supported) => KeyExchange::start(supported),
                None => None,
            };
            offer_key_share(exts, hello, group, started);
        },
    }
}

/// The message once the binder of the session to resume is filled in.
pub open spec fn psk_binder_filled_in(
    resuming: ResumptionView,
    transcript: TranscriptView,
    hmp: HandshakeMessageView,
) -> HandshakeMessageView {
    match hmp.binders() {
        Some(binders) => hmp.with_binders(
            binders.update(0, psk_binder(resuming, transcript, hmp)),
        ),
        None => hmp,
    }
}

/// The binder of the session to resume for a message.
pub open spec fn psk_binder(
    resuming: ResumptionView,
    transcript: TranscriptView,
    hmp: HandshakeMessageView,
) -> Seq<u8> {
    KeyScheduleView::start(resuming.suite.spec_hash(), resuming.value.master_secret).binder(
        transcript.hash_given(resuming.suite.spec_hash(), hmp.encoding_for_binder_signing()),
    )
}

/// Fills in the binder that proves possession of the secret of the session to resume. It
/// depends on the very message that it stands in, up to where it stands.
///
/// Where the space reserved for it is as long as a digest, the message keeps its length and
/// all that the binder depends on. So the binder is also the one of the finished message,
/// which is what the server holds it against.
pub fn fill_in_psk_binder(
    resuming: &ClientSessionValueWithResolvedCipherSuite,
    transcript: &HandshakeHash,
    hmp: &mut HandshakeMessagePayload,
) -> (r: KeyScheduleEarly)
    requires
        old(hmp)@.binders() matches Some(binders) ==> binders.len() > 0,
    ensures
        r@ == KeyScheduleView::start(
            resuming@.suite.spec_hash(),
            resuming@.value.master_secret,
        ),
        final(hmp)@ == psk_binder_filled_in(resuming@, transcript@, old(hmp)@),
        old(hmp)@.binders() matches Some(binders) ==> binders[0].len()
            == resuming@.suite.spec_hash().spec_output_len() ==> {
            &&& final(hmp)@.binders() == Some(
                binders.update(0, psk_binder(resuming@, transcript@, final(hmp)@)),
            )
            &&& final(hmp)@.encoding().len() == old(hmp)@.encoding().len()
            &&& final(hmp)@.encoding_for_binder_signing()
                == old(hmp)@.encoding_for_binder_signing()
        },
{
    let suite: SupportedCipherSuite = resuming.supported_cipher_suite();
    let suite_hash: HashAlgorithm = suite.get_hash();
    let ghost before = hmp@;
    let binder_plaintext: Vec<u8> = hmp.get_encoding_for_binder_signing();
    let handshake_hash: Vec<u8> = transcript.get_hash_given(
        suite_hash,
        binder_plaintext.as_slice(),
    );
    let key_schedule: KeyScheduleEarly = KeyScheduleEarly::new(
        suite_hash,
        resuming.value.master_secret.0.as_slice(),
    );
    let real_binder: Vec<u8> = key_schedule.resumption_psk_binder_key_and_sign_verify_data(
        handshake_hash.as_slice(),
    );
    proof {
        if before.binders() is Some && before.binders()->0[0].len()
            == resuming@.suite.spec_hash().spec_output_len() {
            binder_does_not_sign_itself(before, real_binder@);
        }
    }
    if let HandshakePayload::ClientHello(ch) = &mut hmp.payload {
        ch.set_psk_binder(real_binder.as_slice());
    }
    key_schedule
}

/// The extensions and the session after a session to resume has been offered at some time.
pub open spec fn resumption_prepared<T: Hooks>(
    s: SessionView<T>,
    ticket: Seq<u8>,
    resuming: ResumptionView,
    exts: Seq<ClientExtensionView>,
    doing_retry: bool,
    now: u64,
) -> (SessionView<T>, Seq<ClientExtensionView>) {
    let early = offers_early_data(s, resuming, doing_retry);
    let offer = ClientExtensionView::PresharedKey(
        PresharedKeyOfferView {
            identities: seq![
                PresharedKeyIdentityView {
                    identity: ticket,
                    obfuscated_ticket_age: resuming.value.obfuscated_ticket_age(now),
                },
            ],
            binders: seq![zeroes(resuming.suite.spec_hash())],
        },
    );
    (
        SessionView {
            resumption_ciphersuite: Some(resuming.suite),
            early_data: if early {
                EarlyData {
                    state: EarlyDataState::Ready,
                    left: resuming.value.max_early_data_size as usize,
                }
            } else {
                s.early_data
            },
            ..s
        },
        if early {
            exts.push(ClientExtensionView::EarlyData).push(offer)
        } else {
            exts.push(offer)
        },
    )
}

/// Whether early data goes along with the offer of a session to resume.
pub open spec fn offers_early_data<T: Hooks>(
    s: SessionView<T>,
    resuming: ResumptionView,
    doing_retry: bool,
) -> bool {
    s.config.enable_early_data && resuming.value.max_early_data_size > 0 && !doing_retry
}

/// Offers a session to resume, at a given time. The offer comes last, with space for a
/// binder that is filled in once the message is complete.
pub fn prepare_resumption_at<T: Hooks>(
    sess: &mut ClientSession<T>,
    ticket: Vec<u8>,
    resuming_session: &ClientSessionValueWithResolvedCipherSuite,
    exts: &mut Vec<ClientExtension>,
    doing_retry: bool,
    now: TimeBase,
)
    requires
        offers_early_data(old(sess)@, resuming_session@, doing_retry) ==> old(
            sess,
        )@.early_data.state == EarlyDataState::Disabled,
    ensures
        (final(sess)@, views(final(exts)@)) == resumption_prepared(
            old(sess)@,
            ticket@,
            resuming_session@,
            views(old(exts)@),
            doing_retry,
            now.secs,
        ),
{
    let resuming_suite: SupportedCipherSuite = resuming_session.supported_cipher_suite();
    sess.resumption_ciphersuite = Some(resuming_suite);
    let max_early_data_size: u32 = resuming_session.value.max_early_data_size;
    if sess.config.enable_early_data && max_early_data_size > 0 && !doing_retry {
        sess.early_data.enable(max_early_data_size as usize);
        let ghost before = exts@;
        exts.push(ClientExtension::EarlyData);
        assert(views(exts@) =~= views(before).push(ClientExtensionView::EarlyData));
    }
    let obfuscated_ticket_age: u32 = resuming_session.get_obfuscated_ticket_age(now);
    let binder: Vec<u8> = zero_bytes(resuming_suite.get_hash().output_len());
    let psk_identity: PresharedKeyIdentity = PresharedKeyIdentity::new(
        ticket,
        obfuscated_ticket_age,
    );
    let psk_ext: PresharedKeyOffer = PresharedKeyOffer::new(psk_identity, binder);
    let ghost before = exts@;
    let ghost offer = psk_ext@;
    exts.push(ClientExtension::PresharedKey(psk_ext));
    assert(views(exts@) =~= views(before).push(ClientExtensionView::PresharedKey(offer)));
}

/// Offers a session to resume. The time comes from the clock; where that cannot be read,
/// nothing is offered.
pub fn prepare_resumption<T: Hooks>(
    sess: &mut ClientSession<T>,
    ticket: Vec<u8>,
    resuming_session: &ClientSessionValueWithResolvedCipherSuite,
    exts: &mut Vec<ClientExtension>,
    doing_retry: bool,
) -> (r: Result<(), TlsError>)
    requires
        offers_early_data(old(sess)@, resuming_session@, doing_retry) ==> old(
            sess,
        )@.early_data.state == EarlyDataState::Disabled,
    ensures
        r is Ok ==> exists|now: u64|
            clock_read(Some(now)) && (final(sess)@, views(final(exts)@))
                == #[trigger] resumption_prepared(
                old(sess)@,
                ticket@,
                resuming_session@,
                views(old(exts)@),
                doing_retry,
                now,
            ),
        r matches Err(err) ==> err@ == TlsErrorView::FailedToGetCurrentTime && clock_read(None)
            && final(sess)@ == old(sess)@ && final(exts)@ == old(exts)@,
{
    match TimeBase::now() {
        Ok(now) => {
            prepare_resumption_at(sess, ticket, resuming_session, exts, doing_retry, now);
            Ok(())
        },
        Err(err) => Err(err),
    }
}

/// The offer of a session to resume comes last, and the space for its binder is as long as
/// the binder will be.
pub proof fn resumption_offer_has_room_for_its_binder<T: Hooks>(
    s: SessionView<T>,
    ticket: Seq<u8>,
    resuming: ResumptionView,
    exts: Seq<ClientExtensionView>,
    doing_retry: bool,
    now: u64,
)
    ensures
        ({
            let (_, offered) = resumption_prepared(s, ticket, resuming, exts, doing_retry, now);
            &&& offered.len() > 0
            &&& offered.last() matches ClientExtensionView::PresharedKey(offer)
            &&& offer.binders.len() == 1
            &&& offer.binders[0].len() == resuming.suite.spec_hash().spec_output_len()
            &&& offer.identities.len() == 1
            &&& offer.identities[0].identity == ticket
        }),
{
}

/// The session after a ChangeCipherSpec has been sent for the sake of middleboxes.
pub open spec fn fake_ccs_emitted<T: Hooks>(s: SessionView<T>, sent: bool) -> (
    SessionView<T>,
    bool,
) {
    if s.common.is_quic() {
        (s, sent)
    } else if sent {
        (s, true)
    } else {
        (s.with_sent(MessageView::change_cipher_spec(), false), true)
    }
}

/// Sends a ChangeCipherSpec for the sake of middleboxes, unless it has been sent already or
/// QUIC carries the handshake.
pub fn emit_fake_ccs<T: Hooks>(sent_tls13_fake_ccs: &mut bool, sess: &mut ClientSession<T>)
    ensures
        (final(sess)@, *final(sent_tls13_fake_ccs)) == fake_ccs_emitted(
            old(sess)@,
            *old(sent_tls13_fake_ccs),
        ),
{
    if sess.common.is_quic() {
        return;
    }
    if *sent_tls13_fake_ccs {
        return;
    }
    *sent_tls13_fake_ccs = true;
    let m = Message {
        typ: ContentType::ChangeCipherSpec,
        version: ProtocolVersion::TLSv1_2,
        payload: MessagePayload::ChangeCipherSpec(ChangeCipherSpecPayload {  }),
    };
    sess.common.send_msg(m, false);
}

/// The ChangeCipherSpec is sent at most once: doing it again changes nothing.
pub proof fn fake_ccs_is_sent_once<T: Hooks>(s: SessionView<T>, sent: bool)
    ensures
        ({
            let (s1, sent1) = fake_ccs_emitted(s, sent);
            fake_ccs_emitted(s1, sent1) == (s1, sent1)
        }),
{
}

/// The session once early data can be sent.
pub open spec fn early_traffic_started<T: Hooks>(
    s: SessionView<T>,
    suite: SupportedCipherSuite,
    early_secret: Seq<u8>,
    client_random: Seq<u8>,
) -> SessionView<T> {
    let keyed = s.logged(
        KeyLogLabel::ClientEarlyTrafficSecret,
        client_random,
        early_secret,
    ).with_encrypter(traffic_keys(suite, early_secret));
    let told = SessionView {
        common: CommonView {
            quic: QuicView { early_secret: Some(early_secret), ..keyed.common.quic },
            ..keyed.common
        },
        ..keyed
    };
    told.with_early_traffic(true)
}

/// The session once early data can be sent, under a secret that depends on the ClientHello,
/// and whether the ChangeCipherSpec has been sent by then.
pub open spec fn early_data_started<T: Hooks>(
    s: SessionView<T>,
    suite: SupportedCipherSuite,
    early: KeyScheduleView,
    sent: bool,
    transcript: TranscriptView,
    client_random: Seq<u8>,
) -> (SessionView<T>, bool) {
    let (after_ccs, sent) = fake_ccs_emitted(s, sent);
    let secret = early.derived(
        Label::ClientEarlyTraffic,
        transcript.hash_given(suite.spec_hash(), Seq::empty()),
    );
    (early_traffic_started(after_ccs, suite, secret, client_random), sent)
}

/// Derives the secret of early data, and starts sending under it.
pub fn derive_early_traffic_secret<T: Hooks>(
    sess: &mut ClientSession<T>,
    resuming_session: &ClientSessionValueWithResolvedCipherSuite,
    early_key_schedule: &KeyScheduleEarly,
    sent_tls13_fake_ccs: &mut bool,
    transcript: &HandshakeHash,
    client_random: &[u8; 32],
)
    ensures
        ({
            let (after_ccs, sent) = fake_ccs_emitted(old(sess)@, *old(sent_tls13_fake_ccs));
            let suite = resuming_session@.suite;
            let secret = early_key_schedule@.derived(
                Label::ClientEarlyTraffic,
                transcript@.hash_given(suite.spec_hash(), Seq::empty()),
            );
            &&& *final(sent_tls13_fake_ccs) == sent
            &&& final(sess)@ == early_traffic_started(after_ccs, suite, secret, client_random@)
        }),
        (final(sess)@, *final(sent_tls13_fake_ccs)) == early_data_started(
            old(sess)@,
            resuming_session@.suite,
            early_key_schedule@,
            *old(sent_tls13_fake_ccs),
            transcript@,
            client_random@,
        ),
{
    // For the sake of middleboxes.
    emit_fake_ccs(sent_tls13_fake_ccs, sess);
    let resuming_suite: SupportedCipherSuite = resuming_session.supported_cipher_suite();
    let none: [u8; 0] = [];
    assert(none@ =~= Seq::<u8>::empty());
    let client_hello_hash: Vec<u8> = transcript.get_hash_given(resuming_suite.get_hash(), &none);
    let secret: Vec<u8> = early_key_schedule.client_early_traffic_secret(
        client_hello_hash.as_slice(),
        &mut sess.config.key_log,
        client_random,
    );
    sess.common.record_layer.set_message_encrypter(
        derive_traffic_keys(resuming_suite, secret.as_slice()),
    );
    sess.common.quic.early_secret = Some(secret);
    sess.common.early_traffic = true;
}

/// The outcome of looking at the EncryptedExtensions.
pub open spec fn encrypted_extensions_validated<T: Hooks>(
    s: SessionView<T>,
    hello: ClientHelloDetailsView,
    exts: Seq<ServerExtensionView>,
) -> (Result<(), TlsErrorView>, SessionView<T>) {
    if has_duplicates::<ServerExtension>(exts) {
        (
            Err(misbehaved("server sent duplicate encrypted extensions")),
            s.alerted(AlertDescription::DecodeError),
        )
    } else if hello.unsolicited(exts, Seq::empty()) {
        (
            Err(misbehaved("server sent unsolicited encrypted extension")),
            s.alerted(AlertDescription::UnsupportedExtension),
        )
    } else if exists|i: int|
        0 <= i < exts.len() && (allowed_plaintext((#[trigger] exts[i]).typ()) || disallowed_tls13(
            exts[i].typ(),
        )) {
        (
            Err(misbehaved("server sent inappropriate encrypted extension")),
            s.alerted(AlertDescription::UnsupportedExtension),
        )
    } else {
        (Ok(()), s)
    }
}

/// Refuses EncryptedExtensions that repeat an extension, answer one that was not sent, or
/// hold one that belongs elsewhere.
pub fn validate_encrypted_extensions<T: Hooks>(
    sess: &mut ClientSession<T>,
    hello: &ClientHelloDetails,
    exts: &Vec<ServerExtension>,
) -> (r: Result<(), TlsError>)
    ensures
        (seen(r), final(sess)@) == encrypted_extensions_validated(
            old(sess)@,
            hello@,
            views(exts@),
        ),
{
    if has_duplicate_extension(exts) {
        sess.common.send_fatal_alert(AlertDescription::DecodeError);
        return Err(
            TlsError::PeerMisbehavedError("server sent duplicate encrypted extensions".to_string()),
        );
    }
    let none: [ExtensionType; 0] = [];
    assert(none@ =~= Seq::<ExtensionType>::empty());
    if hello.server_sent_unsolicited_extensions(exts, &none) {
        sess.common.send_fatal_alert(AlertDescription::UnsupportedExtension);
        return Err(
            TlsError::PeerMisbehavedError(
                "server sent unsolicited encrypted extension".to_string(),
            ),
        );
    }
    let ghost received = views(exts@);
    let ghost before = *sess;
    let mut i: usize = 0;
    while i < exts.len()
        invariant
            *sess == before,
            i <= exts@.len(),
            received == views(exts@),
            before@ == old(sess)@,
            !has_duplicates::<ServerExtension>(received),
            !hello@.unsolicited(received, Seq::empty()),
            forall|j: int|
                0 <= j < i ==> !allowed_plaintext((#[trigger] received[j]).typ())
                    && !disallowed_tls13(received[j].typ()),
        decreases exts@.len() - i,
    {
        let typ: ExtensionType = exts[i].get_type();
        assert(received[i as int] == exts@[i as int]@);
        assert(ServerExtension::kind(received[i as int]) == received[i as int].typ());
        if is_allowed_plaintext(typ) || is_disallowed_tls13(typ) {
            sess.common.send_fatal_alert(AlertDescription::UnsupportedExtension);
            return Err(
                TlsError::PeerMisbehavedError(
                    "server sent inappropriate encrypted extension".to_string(),
                ),
            );
        }
        i += 1;
    }
    Ok(())
}

/// Whether the session is resumed: whether the server may select the session that it
/// selected, with the suite that it chose. An error comes with an alert where it says so.
pub open spec fn psk_selected<T: Hooks>(
    s: SessionView<T>,
    suite: SupportedCipherSuite,
    psk_index: Option<u16>,
    resuming: Option<ResumptionView>,
) -> Result<bool, (TlsErrorView, bool)> {
    match psk_index {
        Some(selected) => match resuming {
            Some(resuming) => if !resuming.suite.spec_can_resume_to(suite) {
                Err((misbehaved("server resuming incompatible suite"), true))
            } else if s.early_data.spec_is_enabled() && resuming.suite != suite {
                Err((misbehaved("server varied suite with early data"), true))
            } else if selected != 0 {
                Err((misbehaved("server selected invalid psk"), true))
            } else {
                Ok(true)
            },
            None => Err((misbehaved("server selected unoffered psk"), false)),
        },
        None => Ok(false),
    }
}

/// The outcome of changing to the keys of the handshake.
pub open spec fn handshake_keys_installed<T: Hooks>(
    s: SessionView<T>,
    suite: SupportedCipherSuite,
    ks: KeyScheduleHandshakeView,
    name: Seq<u8>,
    group: NamedGroup,
    hash: Seq<u8>,
    client_random: Seq<u8>,
) -> (Result<KeyScheduleHandshakeView, TlsErrorView>, SessionView<T>) {
    let client = ks.client_secret(hash);
    let server = ks.server_secret(hash);
    let early = s.early_data.spec_is_enabled();
    match aligned_checked(kx_hint_saved(s, name, group)) {
        (Err(err), s1) => (Err(err), s1),
        (Ok(()), s1) => {
            let s2 = if early {
                s1
            } else {
                s1.logged(
                    KeyLogLabel::ClientHandshakeTrafficSecret,
                    client_random,
                    client,
                ).with_encrypter(traffic_keys(suite, client))
            };
            let s3 = s2.logged(
                KeyLogLabel::ServerHandshakeTrafficSecret,
                client_random,
                server,
            ).with_decrypter(traffic_keys(suite, server));
            let s4 = if early {
                s3.logged(KeyLogLabel::ClientHandshakeTrafficSecret, client_random, client)
            } else {
                s3
            };
            (
                Ok(ks.with_client(hash).with_server(hash)),
                SessionView {
                    common: CommonView {
                        quic: QuicView {
                            hs_secrets: Some(SecretsView { client, server }),
                            ..s4.common.quic
                        },
                        ..s4.common
                    },
                    ..s4
                },
            )
        },
    }
}

/// The outcome of starting the encrypted part of the handshake, given what came of the key
/// exchange: the schedule, the session, and the session that is being resumed.
pub open spec fn handshake_traffic_started<T: Hooks>(
    s: SessionView<T>,
    suite: SupportedCipherSuite,
    early: Option<KeyScheduleView>,
    psk_index: Option<u16>,
    resuming: Option<ResumptionView>,
    name: Seq<u8>,
    group: NamedGroup,
    shared: Option<Seq<u8>>,
    hash: Seq<u8>,
    client_random: Seq<u8>,
) -> (Result<KeyScheduleHandshakeView, TlsErrorView>, SessionView<T>, Option<ResumptionView>) {
    match shared {
        Some(shared) => match psk_selected(s, suite, psk_index, resuming) {
            Ok(true) => {
                let ks = KeyScheduleHandshakeView::start(early->0.with_secret(shared));
                let (r, s1) = handshake_keys_installed(
                    s,
                    suite,
                    ks,
                    name,
                    group,
                    hash,
                    client_random,
                );
                (r, s1, resuming)
            },
            Ok(false) => {
                let alg = suite.spec_hash();
                let ks = KeyScheduleHandshakeView::start(
                    KeyScheduleView::start(alg, zeroes(alg)).with_secret(shared),
                );
                let refused = s.with_early_data(EarlyDataState::Rejected).with_early_traffic(false);
                let (r, s1) = handshake_keys_installed(
                    refused,
                    suite,
                    ks,
                    name,
                    group,
                    hash,
                    client_random,
                );
                (r, s1, None)
            },
            Err((err, alert)) => (
                Err(err),
                if alert {
                    s.alerted(AlertDescription::IllegalParameter)
                } else {
                    s
                },
                resuming,
            ),
        },
        None => (Err(misbehaved("key exchange failed")), s, resuming),
    }
}

/// Whether what the change to the keys of the handshake needs is there: the early key
/// schedule where a session is resumed, and a hash where the keys may be changed.
pub open spec fn can_start_traffic<T: Hooks>(
    s: SessionView<T>,
    suite: SupportedCipherSuite,
    early: Option<KeyScheduleView>,
    psk_index: Option<u16>,
    resuming: Option<ResumptionView>,
    transcript: TranscriptView,
) -> bool {
    psk_selected(s, suite, psk_index, resuming) matches Ok(resumed) ==> {
        &&& resumed ==> early is Some
        &&& s.common.is_aligned() ==> transcript.alg is Some
    }
}

/// Whether the server's key share and the one that was offered in its group make a secret.
pub open spec fn agreement_reached(
    server_hello: ServerHelloView,
    hello: ClientHelloDetailsView,
) -> bool {
    server_hello.key_share() matches Some(theirs) && hello.share(theirs.group) matches Some(ours)
        && ours.agreed(theirs.payload) is Some
}

/// The outcome of starting the encrypted part of the handshake: the schedule, the session,
/// and what is left of what was offered.
pub open spec fn traffic_start_outcome<T: Hooks>(
    s: SessionView<T>,
    suite: SupportedCipherSuite,
    early: Option<KeyScheduleView>,
    server_hello: ServerHelloView,
    handshake: HandshakeDetailsView,
    name: Seq<u8>,
    hash: Seq<u8>,
    hello: ClientHelloDetailsView,
    client_random: Seq<u8>,
) -> (
    Result<KeyScheduleHandshakeView, TlsErrorView>,
    SessionView<T>,
    HandshakeDetailsView,
    ClientHelloDetailsView,
) {
    match server_hello.key_share() {
        None => (
            Err(misbehaved("missing key share")),
            s.alerted(AlertDescription::MissingExtension),
            handshake,
            hello,
        ),
        Some(theirs) => match hello.share(theirs.group) {
            None => (
                Err(misbehaved("wrong group for key share")),
                s.alerted(AlertDescription::IllegalParameter),
                handshake,
                hello,
            ),
            Some(ours) => {
                let (r, s1, resuming_session) = handshake_traffic_started(
                    s,
                    suite,
                    early,
                    server_hello.psk_index(),
                    handshake.resuming_session,
                    name,
                    theirs.group,
                    ours.agreed(theirs.payload),
                    hash,
                    client_random,
                );
                (
                    r,
                    s1,
                    HandshakeDetailsView { resuming_session, ..handshake },
                    ClientHelloDetailsView { offered_key_shares: Seq::empty(), ..hello },
                )
            },
        },
    }
}

pub open spec fn early_view(early: Option<KeyScheduleEarly>) -> Option<KeyScheduleView> {
    match early {
        Some(early) => Some(early@),
        None => None,
    }
}

/// A schedule or an error, by their views.
pub open spec fn schedule_view(r: Result<(KeyScheduleHandshake, Vec<u8>), TlsError>) -> Result<
    KeyScheduleHandshakeView,
    TlsErrorView,
> {
    match r {
        Ok((ks, _)) => Ok(ks@),
        Err(err) => Err(err@),
    }
}

fn install_handshake_keys<T: Hooks>(
    suite: SupportedCipherSuite,
    sess: &mut ClientSession<T>,
    key_schedule: KeyScheduleHandshake,
    dns_name: &ServerName,
    group: NamedGroup,
    transcript: &HandshakeHash,
    randoms: &SessionRandoms,
) -> (r: Result<(KeyScheduleHandshake, Vec<u8>), TlsError>)
    requires
        old(sess)@.common.is_aligned() ==> transcript@.alg is Some,
    ensures
        (schedule_view(r), final(sess)@) == handshake_keys_installed(
            old(sess)@,
            suite,
            key_schedule@,
            dns_name@,
            group,
            transcript@.current_hash(),
            randoms@,
        ),
        r matches Ok((_, hash)) ==> hash@ == transcript@.current_hash(),
{
    let ghost ks = key_schedule@;
    let mut key_schedule = key_schedule;
    // Remember what group the server liked for the next time.
    save_kx_hint(sess, dns_name, group);
    match check_aligned_handshake(sess) {
        Ok(()) => {},
        Err(err) => {
            return Err(err);
        },
    }
    let hash: Vec<u8> = transcript.get_current_hash();
    let early: bool = sess.early_data.is_enabled();
    let mut maybe_write_key: Option<Vec<u8>> = None;
    if !early {
        let write_key: Vec<u8> = key_schedule.client_handshake_traffic_secret(
            hash.as_slice(),
            &mut sess.config.key_log,
            &randoms.client,
        );
        sess.common.record_layer.set_message_encrypter(
            derive_traffic_keys(suite, write_key.as_slice()),
        );
        maybe_write_key = Some(write_key);
    }
    let read_key: Vec<u8> = key_schedule.server_handshake_traffic_secret(
        hash.as_slice(),
        &mut sess.config.key_log,
        &randoms.client,
    );
    sess.common.record_layer.set_message_decrypter(
        derive_traffic_keys(suite, read_key.as_slice()),
    );
    let client: Vec<u8> = match maybe_write_key {
        Some(write_key) => write_key,
        None => key_schedule.client_handshake_traffic_secret(
            hash.as_slice(),
            &mut sess.config.key_log,
            &randoms.client,
        ),
    };
    sess.common.quic.hs_secrets = Some(Secrets { client, server: read_key });
    assert(ks.with_server(hash@).with_client(hash@) == ks.with_client(hash@).with_server(hash@));
    Ok((key_schedule, hash))
}

/// Starts the encrypted part of the handshake, given what came of the key exchange.
pub fn start_handshake_traffic_given<T: Hooks>(
    suite: SupportedCipherSuite,
    sess: &mut ClientSession<T>,
    early_key_schedule: Option<KeyScheduleEarly>,
    psk_index: Option<u16>,
    handshake: &mut HandshakeDetails,
    dns_name: &ServerName,
    transcript: &HandshakeHash,
    group: NamedGroup,
    shared: Option<KeyExchangeResult>,
    randoms: &SessionRandoms,
) -> (r: Result<(KeyScheduleHandshake, Vec<u8>), TlsError>)
    requires
        shared is Some ==> can_start_traffic(
            old(sess)@,
            suite,
            early_view(early_key_schedule),
            psk_index,
            old(handshake)@.resuming_session,
            transcript@,
        ),
    ensures
        ({
            let (outcome, s, resuming) = handshake_traffic_started(
                old(sess)@,
                suite,
                early_view(early_key_schedule),
                psk_index,
                old(handshake)@.resuming_session,
                dns_name@,
                group,
                match shared {
                    Some(shared) => Some(shared.shared_secret@),
                    None => None,
                },
                transcript@.current_hash(),
                randoms@,
            );
            &&& schedule_view(r) == outcome
            &&& final(sess)@ == s
            &&& final(handshake)@ == (HandshakeDetailsView {
                resuming_session: resuming,
                ..old(handshake)@
            })
        }),
        r matches Ok((_, hash)) ==> hash@ == transcript@.current_hash(),
{
    let shared: KeyExchangeResult = match shared {
        Some(shared) => shared,
        None => {
            return Err(TlsError::PeerMisbehavedError("key exchange failed".to_string()));
        },
    };
    let key_schedule: KeyScheduleHandshake = match psk_index {
        Some(selected_psk) => {
            let resuming_suite: SupportedCipherSuite = match &handshake.resuming_session {
                Some(resuming) => resuming.supported_cipher_suite(),
                None => {
                    return Err(
                        TlsError::PeerMisbehavedError(
                            "server selected unoffered psk".to_string(),
                        ),
                    );
                },
            };
            if !resuming_suite.can_resume_to(suite) {
                return Err(illegal_param(sess, "server resuming incompatible suite"));
            }
            // If the server varies the suite here, early data has been encrypted under the
            // wrong suite.
            if sess.early_data.is_enabled() && resuming_suite != suite {
                return Err(illegal_param(sess, "server varied suite with early data"));
            }
            if selected_psk != 0 {
                return Err(illegal_param(sess, "server selected invalid psk"));
            }
            match early_key_schedule {
                Some(early) => early.into_handshake(shared.shared_secret.as_slice()),
                None => {
                    assert(false);
                    return Err(TlsError::HandshakeNotComplete);
                },
            }
        },
        None => {
            sess.early_data.rejected();
            sess.common.early_traffic = false;
            handshake.resuming_session = None;
            KeyScheduleNonSecret::new(suite.get_hash()).into_handshake(
                shared.shared_secret.as_slice(),
            )
        },
    };
    install_handshake_keys(suite, sess, key_schedule, dns_name, group, transcript, randoms)
}

/// Starts the encrypted part of the handshake: finishes the key exchange with the server's
/// share, settles whether a session is resumed, and changes to the keys of the handshake.
pub fn start_handshake_traffic<T: Hooks>(
    suite: SupportedCipherSuite,
    sess: &mut ClientSession<T>,
    early_key_schedule: Option<KeyScheduleEarly>,
    server_hello: &ServerHelloPayload,
    handshake: &mut HandshakeDetails,
    dns_name: &ServerName,
    transcript: &HandshakeHash,
    hello: &mut ClientHelloDetails,
    randoms: &SessionRandoms,
) -> (r: Result<(KeyScheduleHandshake, Vec<u8>), TlsError>)
    requires
        agreement_reached(server_hello@, old(hello)@) ==> can_start_traffic(
            old(sess)@,
            suite,
            early_view(early_key_schedule),
            server_hello@.psk_index(),
            old(handshake)@.resuming_session,
            transcript@,
        ),
    ensures
        (schedule_view(r), final(sess)@, final(handshake)@, final(hello)@) == traffic_start_outcome(
            old(sess)@,
            suite,
            early_view(early_key_schedule),
            server_hello@,
            old(handshake)@,
            dns_name@,
            transcript@.current_hash(),
            old(hello)@,
            randoms@,
        ),
        r matches Ok((_, hash)) ==> hash@ == transcript@.current_hash(),
{
    let their_key_share: &KeyShareEntry = match server_hello.get_key_share() {
        Some(share) => share,
        None => {
            sess.common.send_fatal_alert(AlertDescription::MissingExtension);
            return Err(TlsError::PeerMisbehavedError("missing key share".to_string()));
        },
    };
    let our_key_share: KeyExchange = match hello.find_key_share_and_discard_others(
        their_key_share.group,
    ) {
        Some(share) => share,
        None => {
            return Err(illegal_param(sess, "wrong group for key share"));
        },
    };
    let shared: Option<KeyExchangeResult> = our_key_share.complete(
        their_key_share.payload.0.as_slice(),
    );
    start_handshake_traffic_given(
        suite,
        sess,
        early_key_schedule,
        server_hello.get_psk_index(),
        handshake,
        dns_name,
        transcript,
        their_key_share.group,
        shared,
        randoms,
    )
}

fn traffic_can_start<T: Hooks>(
    suite: SupportedCipherSuite,
    sess: &ClientSession<T>,
    early_key_schedule: &Option<KeyScheduleEarly>,
    psk_index: Option<u16>,
    handshake: &HandshakeDetails,
    transcript: &HandshakeHash,
) -> (r: bool)
    ensures
        r == can_start_traffic(
            sess@,
            suite,
            early_view(*early_key_schedule),
            psk_index,
            handshake@.resuming_session,
            transcript@,
        ),
{
    if let Some(selected_psk) = psk_index {
        let resuming_suite: SupportedCipherSuite = match &handshake.resuming_session {
            Some(resuming) => resuming.supported_cipher_suite(),
            None => {
                return true;
            },
        };
        if !resuming_suite.can_resume_to(suite) || (sess.early_data.is_enabled() && resuming_suite
            != suite) || selected_psk != 0 {
            return true;
        }
        if early_key_schedule.is_none() {
            return false;
        }
    }
    !sess.common.handshake_joiner.is_empty() || transcript.alg.is_some()
}

/// Starts the encrypted part of the handshake for callers who do not know whether all is
/// there that this may need: `None`, with nothing changed, where it is not.
pub fn try_start_handshake_traffic<T: Hooks>(
    suite: SupportedCipherSuite,
    sess: &mut ClientSession<T>,
    early_key_schedule: Option<KeyScheduleEarly>,
    server_hello: &ServerHelloPayload,
    handshake: &mut HandshakeDetails,
    dns_name: &ServerName,
    transcript: &HandshakeHash,
    hello: &mut ClientHelloDetails,
    randoms: &SessionRandoms,
) -> (r: Option<Result<(KeyScheduleHandshake, Vec<u8>), TlsError>>)
    ensures
        r is Some <==> can_start_traffic(
            old(sess)@,
            suite,
            early_view(early_key_schedule),
            server_hello@.psk_index(),
            old(handshake)@.resuming_session,
            transcript@,
        ),
        match r {
            Some(r) => {
                &&& (schedule_view(r), final(sess)@, final(handshake)@, final(hello)@)
                    == traffic_start_outcome(
                    old(sess)@,
                    suite,
                    early_view(early_key_schedule),
                    server_hello@,
                    old(handshake)@,
                    dns_name@,
                    transcript@.current_hash(),
                    old(hello)@,
                    randoms@,
                )
                &&& r matches Ok((_, hash)) ==> hash@ == transcript@.current_hash()
            },
            None => {
                &&& final(sess)@ == old(sess)@
                &&& final(handshake)@ == old(handshake)@
                &&& final(hello)@ == old(hello)@
            },
        },
{
    if !traffic_can_start(
        suite,
        sess,
        &early_key_schedule,
        server_hello.get_psk_index(),
        handshake,
        transcript,
    ) {
        return None;
    }
    Some(
        start_handshake_traffic(
            suite,
            sess,
            early_key_schedule,
            server_hello,
            handshake,
            dns_name,
            transcript,
            hello,
            randoms,
        ),
    )
}

} // verus!
