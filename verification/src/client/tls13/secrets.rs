//! What the secrets of a session are made of. Here they are traced back to hash, HMAC and
//! HKDF, to the texts that go into them, and to the messages that they depend on: what a peer
//! has to do that wants to arrive at the same ones.

use super::super::common::{
    share_at, share_at_finds_a_share, ClientHelloDetailsView, HandshakeDetailsView,
};
use super::super::{ConfigView, EarlyDataState, Hooks, SessionView, StoresClientSessions};
use super::finish::{
    application_traffic_started, client_auth_sent, finished_handled, ExpectFinishedView,
};
use super::states::ClientStateView;
use super::traffic::{handshake_payload, ExpectTrafficView};
use super::{
    early_data_started, handshake_traffic_started, psk_binder, psk_binder_filled_in,
    traffic_start_outcome,
};
use crate::codec::{prefixed_u16, Codec};
use crate::crypto::{digest_of, hkdf_expand_of, hmac_of, HashAlgorithm};
use crate::enums::{
    CipherSuite, ContentType, HandshakeType, KeyUpdateRequest, NamedGroup, ProtocolVersion,
};
use crate::error::TlsErrorView;
use crate::handshake::{
    HandshakeMessageView, HandshakePayloadView, NewSessionTicketView, ServerHelloView,
};
use crate::hash_hs::TranscriptView;
use crate::key_log::{KeyLogLabel, KeyLogView};
use crate::key_schedule::{
    expand_label, next_traffic_secret, traffic_keys, verify_data, zeroes, KeyScheduleTrafficView,
    KeyScheduleView, Label, TrafficKeysView,
};
use crate::message::MessageView;
use crate::persist::{
    chain_fits, client_session_reads_back, session_key, ClientSessionValue,
    ClientSessionValueView, ResumptionView, SessionKeyKind,
};
use crate::session::{Protocol, SecretsView};
use crate::suites::SupportedCipherSuite;
use vstd::prelude::*;

verus! {

/// A text in ASCII.
pub open spec fn ascii(text: Seq<char>) -> Seq<u8> {
    Seq::new(text.len(), |i: int| text[i] as u8)
}

/// How long a digest is.
pub open spec fn hash_len(alg: HashAlgorithm) -> nat {
    match alg {
        HashAlgorithm::SHA256 => 32,
        HashAlgorithm::SHA384 => 48,
    }
}

/// That many zeroes.
pub open spec fn blank(len: nat) -> Seq<u8> {
    Seq::new(len, |i: int| 0u8)
}

/// `len` bytes that HKDF expands from a pseudorandom key for a label and a context.
pub open spec fn labelled(
    alg: HashAlgorithm,
    prk: Seq<u8>,
    label: Seq<u8>,
    context: Seq<u8>,
    len: nat,
) -> Seq<u8> {
    hkdf_expand_of(
        alg,
        prk,
        seq![(len / 256) as u8, (len % 256) as u8, ((6 + label.len()) % 256) as u8] + ascii(
            "tls13 "@,
        ) + label + seq![context.len() as u8] + context,
        len,
    )
}

/// A secret of a stage: HKDF extracts the stage's secret under its salt, and expands what it
/// has extracted.
pub open spec fn stage_secret(stage: KeyScheduleView, label: Seq<u8>, context: Seq<u8>) -> Seq<u8> {
    labelled(
        stage.algorithm,
        hmac_of(stage.algorithm, stage.salt, stage.secret),
        label,
        context,
        hash_len(stage.algorithm),
    )
}

/// Whether a stage follows another one: its salt is a secret of that one which depends on no
/// messages, and its secret is the one that goes into the schedule with it.
pub open spec fn follows(next: KeyScheduleView, stage: KeyScheduleView, secret: Seq<u8>) -> bool {
    &&& next.algorithm == stage.algorithm
    &&& next.salt == stage_secret(
        stage,
        ascii("derived"@),
        digest_of(stage.algorithm, Seq::empty()),
    )
    &&& next.secret == secret
}

/// Whether a stage is the first of a schedule, with a secret that both sides share already.
pub open spec fn begins(stage: KeyScheduleView, alg: HashAlgorithm, secret: Seq<u8>) -> bool {
    &&& stage.algorithm == alg
    &&& stage.salt == blank(hash_len(alg))
    &&& stage.secret == secret
}

/// Whether records under these keys are protected with a traffic secret.
pub open spec fn keyed_by(
    keys: Option<TrafficKeysView>,
    suite: SupportedCipherSuite,
    secret: Seq<u8>,
) -> bool {
    let alg = suite.spec_hash();
    &&& keys matches Some(keys)
    &&& keys.suite == suite
    &&& keys.key == labelled(alg, secret, ascii("key"@), Seq::empty(), suite.spec_key_len())
    &&& keys.iv == labelled(alg, secret, ascii("iv"@), Seq::empty(), 12)
}

/// The signature of a hash under a secret: HMAC with a key that is expanded from it.
pub open spec fn finished_mac(alg: HashAlgorithm, secret: Seq<u8>, hash: Seq<u8>) -> Seq<u8> {
    hmac_of(
        alg,
        labelled(alg, secret, ascii("finished"@), Seq::empty(), hash_len(alg)),
        hash,
    )
}

/// Whether a log has gained these lines and no others, each a label with a secret; a log that
/// is not enabled gains none.
pub open spec fn log_gains(
    before: KeyLogView,
    after: KeyLogView,
    client_random: Seq<u8>,
    lines: Seq<(Seq<char>, Seq<u8>)>,
) -> bool {
    let n = before.entries.len() as int;
    &&& after.enabled == before.enabled
    &&& before.enabled ==> {
        &&& after.entries.len() == n + lines.len()
        &&& forall|i: int| 0 <= i < n ==> #[trigger] after.entries[i] == before.entries[i]
        &&& forall|i: int|
            0 <= i < lines.len() ==> {
                let entry = after.entries[n + i];
                &&& entry.label.spec_text() == (#[trigger] lines[i]).0
                &&& entry.client_random == client_random
                &&& entry.secret == lines[i].1
            }
    }
    &&& !before.enabled ==> after.entries == before.entries
}

/// Every label goes by its text.
pub proof fn labels_are_their_texts()
    ensures
        Label::Binder.spec_text() == ascii("res binder"@),
        Label::ClientEarlyTraffic.spec_text() == ascii("c e traffic"@),
        Label::ClientHandshakeTraffic.spec_text() == ascii("c hs traffic"@),
        Label::ServerHandshakeTraffic.spec_text() == ascii("s hs traffic"@),
        Label::ClientApplicationTraffic.spec_text() == ascii("c ap traffic"@),
        Label::ServerApplicationTraffic.spec_text() == ascii("s ap traffic"@),
        Label::ExporterMaster.spec_text() == ascii("exp master"@),
        Label::ResumptionMaster.spec_text() == ascii("res master"@),
        Label::Derived.spec_text() == ascii("derived"@),
        Label::Finished.spec_text() == ascii("finished"@),
        Label::TrafficUpdate.spec_text() == ascii("traffic upd"@),
        Label::Resumption.spec_text() == ascii("resumption"@),
        Label::Exporter.spec_text() == ascii("exporter"@),
        Label::Key.spec_text() == ascii("key"@),
        Label::Iv.spec_text() == ascii("iv"@),
{
    reveal_strlit("res binder");
    reveal_strlit("c e traffic");
    reveal_strlit("c hs traffic");
    reveal_strlit("s hs traffic");
    reveal_strlit("c ap traffic");
    reveal_strlit("s ap traffic");
    reveal_strlit("exp master");
    reveal_strlit("res master");
    reveal_strlit("derived");
    reveal_strlit("finished");
    reveal_strlit("traffic upd");
    reveal_strlit("resumption");
    reveal_strlit("exporter");
    reveal_strlit("key");
    reveal_strlit("iv");
    assert(Label::Binder.spec_text() =~= ascii("res binder"@));
    assert(Label::ClientEarlyTraffic.spec_text() =~= ascii("c e traffic"@));
    assert(Label::ClientHandshakeTraffic.spec_text() =~= ascii("c hs traffic"@));
    assert(Label::ServerHandshakeTraffic.spec_text() =~= ascii("s hs traffic"@));
    assert(Label::ClientApplicationTraffic.spec_text() =~= ascii("c ap traffic"@));
    assert(Label::ServerApplicationTraffic.spec_text() =~= ascii("s ap traffic"@));
    assert(Label::ExporterMaster.spec_text() =~= ascii("exp master"@));
    assert(Label::ResumptionMaster.spec_text() =~= ascii("res master"@));
    assert(Label::Derived.spec_text() =~= ascii("derived"@));
    assert(Label::Finished.spec_text() =~= ascii("finished"@));
    assert(Label::TrafficUpdate.spec_text() =~= ascii("traffic upd"@));
    assert(Label::Resumption.spec_text() =~= ascii("resumption"@));
    assert(Label::Exporter.spec_text() =~= ascii("exporter"@));
    assert(Label::Key.spec_text() =~= ascii("key"@));
    assert(Label::Iv.spec_text() =~= ascii("iv"@));
}

/// Bytes are expanded from a secret with their number, the label and the context, whatever
/// these are.
pub proof fn expansion_is_labelled(
    alg: HashAlgorithm,
    secret: Seq<u8>,
    label: Seq<u8>,
    context: Seq<u8>,
    len: nat,
)
    requires
        len < 0x1_0000,
    ensures
        expand_label(alg, secret, label, context, len) == labelled(
            alg,
            secret,
            label,
            context,
            len,
        ),
{
    reveal_strlit("tls13 ");
    assert(((label.len() % 256 + 6) % 256) == (6 + label.len()) % 256);
    assert(crate::key_schedule::hkdf_info(label, context, len) =~= seq![
        (len / 256) as u8,
        (len % 256) as u8,
        ((6 + label.len()) % 256) as u8,
    ] + ascii("tls13 "@) + label + seq![context.len() as u8] + context);
}

/// A secret of a stage is expanded from what is extracted from the stage.
pub proof fn stage_secrets_are_extracted(stage: KeyScheduleView, label: Label, context: Seq<u8>)
    ensures
        stage.derived(label, context) == stage_secret(stage, label.spec_text(), context),
{
    let alg = stage.algorithm;
    expansion_is_labelled(
        alg,
        hmac_of(alg, stage.salt, stage.secret),
        label.spec_text(),
        context,
        hash_len(alg),
    );
}

/// The keys of records come of a traffic secret, on the reading and the writing side alike.
pub proof fn keys_come_of_the_secret(suite: SupportedCipherSuite, secret: Seq<u8>)
    ensures
        keyed_by(Some(traffic_keys(suite, secret)), suite, secret),
{
    labels_are_their_texts();
    let alg = suite.spec_hash();
    expansion_is_labelled(alg, secret, ascii("key"@), Seq::empty(), suite.spec_key_len());
    expansion_is_labelled(alg, secret, ascii("iv"@), Seq::empty(), 12);
}

/// What finishes a handshake is a signature of the messages so far.
pub proof fn finished_messages_are_macs(alg: HashAlgorithm, secret: Seq<u8>, hash: Seq<u8>)
    ensures
        verify_data(alg, secret, hash) == finished_mac(alg, secret, hash),
{
    labels_are_their_texts();
    expansion_is_labelled(alg, secret, ascii("finished"@), Seq::empty(), hash_len(alg));
}

/// A stage that a secret goes into follows the one before it, and a schedule begins with
/// zeroes for a salt.
pub proof fn stages_follow_each_other(
    alg: HashAlgorithm,
    psk: Seq<u8>,
    stage: KeyScheduleView,
    secret: Seq<u8>,
)
    ensures
        begins(KeyScheduleView::start(alg, psk), alg, psk),
        follows(stage.with_secret(secret), stage, secret),
        follows(stage.with_no_secret(), stage, blank(hash_len(stage.algorithm))),
{
    labels_are_their_texts();
    stage_secrets_are_extracted(
        stage,
        Label::Derived,
        digest_of(stage.algorithm, Seq::empty()),
    );
    assert(KeyScheduleView::start(alg, psk).salt =~= blank(hash_len(alg)));
    assert(stage.with_no_secret().secret =~= blank(hash_len(stage.algorithm)));
}

/// The secret of early data depends on the secret of the session to resume and on the
/// messages so far, which is all of the ClientHello. It protects what is sent from then on,
/// and nothing that is received.
pub proof fn early_secret_comes_of_the_psk_and_the_hello<T: Hooks>(
    s: SessionView<T>,
    suite: SupportedCipherSuite,
    early: KeyScheduleView,
    sent: bool,
    transcript: TranscriptView,
    client_random: Seq<u8>,
)
    ensures
        ({
            let (s1, _) = early_data_started(s, suite, early, sent, transcript, client_random);
            let alg = match transcript.alg {
                Some(alg) => alg,
                None => suite.spec_hash(),
            };
            let secret = stage_secret(
                early,
                ascii("c e traffic"@),
                digest_of(alg, transcript.bytes),
            );
            &&& s1.common.quic.early_secret == Some(secret)
            &&& keyed_by(s1.common.record_layer.encrypter, suite, secret)
            &&& s1.common.record_layer.decrypter == s.common.record_layer.decrypter
            &&& s1.common.early_traffic
            &&& s1.early_data == s.early_data
            &&& s1.config.store == s.config.store
            &&& log_gains(
                s.config.key_log,
                s1.config.key_log,
                client_random,
                seq![("CLIENT_EARLY_TRAFFIC_SECRET"@, secret)],
            )
        }),
{
    labels_are_their_texts();
    let secret = early.derived(
        Label::ClientEarlyTraffic,
        transcript.hash_given(suite.spec_hash(), Seq::empty()),
    );
    assert(transcript.bytes + Seq::<u8>::empty() =~= transcript.bytes);
    stage_secrets_are_extracted(
        early,
        Label::ClientEarlyTraffic,
        transcript.hash_given(suite.spec_hash(), Seq::empty()),
    );
    keys_come_of_the_secret(suite, secret);
}

/// The secrets of the handshake depend on the messages up to the ServerHello and on the key
/// exchange. Where the server selected a session to resume, they depend on that session's
/// secret too, whatever has become of early data: the schedule goes on from the one that the
/// binder came of. Only where it selected none does the schedule begin with zeroes.
///
/// The server's secret protects what is received from then on. The client's protects what is
/// sent, unless early data is still being sent under its own keys. Both are logged, and
/// handed to QUIC.
pub proof fn handshake_secrets_come_of_psk_and_exchange<T: Hooks>(
    s: SessionView<T>,
    suite: SupportedCipherSuite,
    early: KeyScheduleView,
    psk_index: Option<u16>,
    resuming: Option<ResumptionView>,
    name: Seq<u8>,
    group: NamedGroup,
    shared: Seq<u8>,
    hash: Seq<u8>,
    client_random: Seq<u8>,
)
    requires
        handshake_traffic_started(
            s,
            suite,
            Some(early),
            psk_index,
            resuming,
            name,
            group,
            Some(shared),
            hash,
            client_random,
        ).0 is Ok,
    ensures
        ({
            let (r, s1, kept) = handshake_traffic_started(
                s,
                suite,
                Some(early),
                psk_index,
                resuming,
                name,
                group,
                Some(shared),
                hash,
                client_random,
            );
            let stage = r->Ok_0.ks;
            let client = stage_secret(stage, ascii("c hs traffic"@), hash);
            let server = stage_secret(stage, ascii("s hs traffic"@), hash);
            let early_keys_stay = psk_index is Some && (s.early_data.state == EarlyDataState::Ready
                || s.early_data.state == EarlyDataState::Accepted);
            &&& psk_index is Some ==> {
                &&& follows(stage, early, shared)
                &&& psk_index == Some(0u16)
                &&& resuming is Some
                &&& resuming->0.suite.spec_hash() == suite.spec_hash()
                &&& kept == resuming
                &&& s1.early_data == s.early_data
                &&& s1.common.early_traffic == s.common.early_traffic
            }
            &&& psk_index is None ==> {
                &&& exists|first: KeyScheduleView|
                    begins(first, suite.spec_hash(), blank(hash_len(suite.spec_hash())))
                        && #[trigger] follows(stage, first, shared)
                &&& kept is None
                &&& s1.early_data.state == EarlyDataState::Rejected
                &&& !s1.common.early_traffic
            }
            &&& r->Ok_0.client == Some(client)
            &&& r->Ok_0.server == Some(server)
            &&& keyed_by(s1.common.record_layer.decrypter, suite, server)
            &&& if early_keys_stay {
                s1.common.record_layer.encrypter == s.common.record_layer.encrypter
            } else {
                keyed_by(s1.common.record_layer.encrypter, suite, client)
            }
            &&& s1.common.quic.hs_secrets == Some(SecretsView { client, server })
            &&& log_gains(
                s.config.key_log,
                s1.config.key_log,
                client_random,
                if early_keys_stay {
                    seq![
                        ("SERVER_HANDSHAKE_TRAFFIC_SECRET"@, server),
                        ("CLIENT_HANDSHAKE_TRAFFIC_SECRET"@, client),
                    ]
                } else {
                    seq![
                        ("CLIENT_HANDSHAKE_TRAFFIC_SECRET"@, client),
                        ("SERVER_HANDSHAKE_TRAFFIC_SECRET"@, server),
                    ]
                },
            )
            &&& s1.common.sendable_tls == s.common.sendable_tls
        }),
{
    let (r, s1, kept) = handshake_traffic_started(
        s,
        suite,
        Some(early),
        psk_index,
        resuming,
        name,
        group,
        Some(shared),
        hash,
        client_random,
    );
    let alg = suite.spec_hash();
    let stage = r->Ok_0.ks;
    labels_are_their_texts();
    stages_follow_each_other(alg, zeroes(alg), early, shared);
    let first = KeyScheduleView::start(alg, zeroes(alg));
    stages_follow_each_other(alg, zeroes(alg), first, shared);
    assert(zeroes(alg) =~= blank(hash_len(alg)));
    if psk_index is None {
        assert(stage == first.with_secret(shared));
        assert(follows(stage, first, shared));
    }
    stage_secrets_are_extracted(stage, Label::ClientHandshakeTraffic, hash);
    stage_secrets_are_extracted(stage, Label::ServerHandshakeTraffic, hash);
    keys_come_of_the_secret(suite, stage.derived(Label::ClientHandshakeTraffic, hash));
    keys_come_of_the_secret(suite, stage.derived(Label::ServerHandshakeTraffic, hash));
}

/// Keying material for the application comes of the exporter secret, the label, the context
/// and the length that is asked for. So two sides that hold the same exporter secret arrive
/// at the same bytes.
pub proof fn exported_material_comes_of_the_exporter_secret(
    ks: KeyScheduleTrafficView,
    label: Seq<u8>,
    context: Option<Seq<u8>>,
    len: nat,
)
    requires
        ks.exporter is Some,
        len < 0x1_0000,
    ensures
        ({
            let alg = ks.ks.algorithm;
            let of_label = labelled(
                alg,
                ks.exporter->0,
                label,
                digest_of(alg, Seq::empty()),
                hash_len(alg),
            );
            let given = match context {
                Some(context) => context,
                None => Seq::empty(),
            };
            ks.exported(label, context, len) == labelled(
                alg,
                of_label,
                ascii("exporter"@),
                digest_of(alg, given),
                len,
            )
        }),
{
    let alg = ks.ks.algorithm;
    labels_are_their_texts();
    let h_empty = digest_of(alg, Seq::empty());
    expansion_is_labelled(alg, ks.exporter->0, label, h_empty, hash_len(alg));
    let secret = expand_label(alg, ks.exporter->0, label, h_empty, hash_len(alg));
    let given = match context {
        Some(context) => context,
        None => Seq::empty(),
    };
    expansion_is_labelled(alg, secret, ascii("exporter"@), digest_of(alg, given), len);
}

/// The binder is a signature of the messages so far and the message that it stands in, up to
/// the binders, with a key that comes of the secret of the session to resume. The hash
/// function of that session's suite is used throughout; only a transcript that has settled
/// on one hashes with its own. The other binders, and how many there are, stay as they were.
pub proof fn binder_signs_the_hello_with_the_psk(
    resuming: ResumptionView,
    transcript: TranscriptView,
    hmp: HandshakeMessageView,
    first: KeyScheduleView,
)
    requires
        hmp.binders() is Some,
        hmp.binders()->0.len() > 0,
        begins(first, resuming.suite.spec_hash(), resuming.value.master_secret),
    ensures
        ({
            let alg = resuming.suite.spec_hash();
            let signed = transcript.bytes + hmp.encoding_for_binder_signing();
            let key = stage_secret(first, ascii("res binder"@), digest_of(alg, Seq::empty()));
            let before = hmp.binders()->0;
            let after = psk_binder_filled_in(resuming, transcript, hmp).binders()->0;
            &&& psk_binder_filled_in(resuming, transcript, hmp).binders() is Some
            &&& after.len() == before.len()
            &&& forall|i: int| 1 <= i < before.len() ==> #[trigger] after[i] == before[i]
            &&& transcript.alg is None ==> after[0] == finished_mac(
                alg,
                key,
                digest_of(alg, signed),
            )
            &&& transcript.alg matches Some(settled) ==> after[0] == finished_mac(
                alg,
                key,
                digest_of(settled, signed),
            )
        }),
{
    let alg = resuming.suite.spec_hash();
    labels_are_their_texts();
    let start = KeyScheduleView::start(alg, resuming.value.master_secret);
    assert(start.salt =~= blank(hash_len(alg)));
    assert(start == first);
    stage_secrets_are_extracted(start, Label::Binder, digest_of(alg, Seq::empty()));
    finished_messages_are_macs(
        alg,
        start.derived(Label::Binder, digest_of(alg, Seq::empty())),
        transcript.hash_given(alg, hmp.encoding_for_binder_signing()),
    );
    let binders = hmp.binders()->0.update(0, psk_binder(resuming, transcript, hmp));
    let ch = hmp.payload->ClientHello_0;
    assert(hmp.with_binders(binders).binders() == Some(binders));
}

/// The client's secret of the handshake when the server's Finished message comes. Where early
/// data was being sent, it is derived only then.
pub open spec fn client_handshake_secret<T: Hooks>(
    st: ExpectFinishedView<T>,
    s: SessionView<T>,
) -> Seq<u8> {
    if s.common.early_traffic {
        stage_secret(st.hs.key_schedule.ks, ascii("c hs traffic"@), st.hs.hash_at_server_hello)
    } else {
        st.hs.key_schedule.client->0
    }
}

/// The bytes of a handshake message.
pub open spec fn bytes_of(m: MessageView) -> Seq<u8> {
    m.payload->Handshake_0.encoding()
}

/// The server's Finished message is a signature of all messages before it. Once it is
/// accepted, the secrets of the running session, and the one that keying material for the
/// application comes of, depend on all messages up to and with it: each side derives them from
/// its own transcript. The stage that they belong to follows that of the handshake, with no
/// secret added.
///
/// The server's secret protects what is received from then on, the client's what is sent; all
/// three are logged, and QUIC is handed the first two.
pub proof fn running_secrets_depend_on_the_whole_handshake<T: Hooks>(
    st: ExpectFinishedView<T>,
    s: SessionView<T>,
    m: MessageView,
    sig: Result<Seq<u8>, TlsErrorView>,
    next: ClientStateView<T>,
    s1: SessionView<T>,
)
    requires
        st.is_ready(s),
        finished_handled(st, s, m, sig) == (Ok::<ClientStateView<T>, TlsErrorView>(next), s1),
    ensures
        ({
            let alg = st.hs.key_schedule.ks.algorithm;
            let suite = s.common.suite->0;
            let up_to_server = digest_of(
                st.hs.transcript.alg->0,
                st.hs.transcript.bytes + bytes_of(m),
            );
            let running = match next {
                ClientStateView::ExpectQUICTraffic(running) => running,
                _ => next->ExpectTraffic_0,
            };
            let ks = running.key_schedule;
            let client = stage_secret(ks.ks, ascii("c ap traffic"@), up_to_server);
            let server = stage_secret(ks.ks, ascii("s ap traffic"@), up_to_server);
            let exporter = stage_secret(ks.ks, ascii("exp master"@), up_to_server);
            let handshake_client = client_handshake_secret(st, s);
            &&& handshake_payload(m) == Some(
                HandshakePayloadView::Finished(
                    finished_mac(
                        alg,
                        st.hs.key_schedule.server->0,
                        digest_of(st.hs.transcript.alg->0, st.hs.transcript.bytes),
                    ),
                ),
            )
            &&& next is ExpectQUICTraffic <==> s.common.protocol == Protocol::Quic
            &&& next is ExpectTraffic <==> s.common.protocol != Protocol::Quic
            &&& follows(ks.ks, st.hs.key_schedule.ks, blank(hash_len(alg)))
            &&& ks.client == Some(client)
            &&& ks.server == Some(server)
            &&& ks.exporter == Some(exporter)
            &&& !running.want_write_key_update
            &&& running.dns_name == st.hs.dns_name
            &&& keyed_by(s1.common.record_layer.encrypter, suite, client)
            &&& keyed_by(s1.common.record_layer.decrypter, suite, server)
            &&& s1.common.traffic
            &&& s1.common.quic.traffic_secrets == if s.common.protocol == Protocol::Quic {
                Some(SecretsView { client, server })
            } else {
                s.common.quic.traffic_secrets
            }
            &&& log_gains(
                s.config.key_log,
                s1.config.key_log,
                st.hs.client_random,
                if s.common.early_traffic {
                    seq![
                        ("CLIENT_HANDSHAKE_TRAFFIC_SECRET"@, handshake_client),
                        ("SERVER_TRAFFIC_SECRET_0"@, server),
                        ("EXPORTER_SECRET"@, exporter),
                        ("CLIENT_TRAFFIC_SECRET_0"@, client),
                    ]
                } else {
                    seq![
                        ("SERVER_TRAFFIC_SECRET_0"@, server),
                        ("EXPORTER_SECRET"@, exporter),
                        ("CLIENT_TRAFFIC_SECRET_0"@, client),
                    ]
                },
            )
        }),
{
    labels_are_their_texts();
    let alg = st.hs.key_schedule.ks.algorithm;
    let suite = s.common.suite->0;
    let hash = st.hs.transcript.with_message(m).current_hash();
    let (ks, transcript, s2) = st.before_auth(s, m);
    let (_, transcript3, s3) = client_auth_sent(transcript, st.client_auth, s2, sig);
    let (_, _, s4) = application_traffic_started(
        ks.finish(),
        transcript3,
        s3,
        hash,
        st.hs.client_random,
    );
    assert(s2.config.key_log == if s.common.early_traffic {
        s.config.key_log.logged(
            KeyLogLabel::ClientHandshakeTrafficSecret,
            st.hs.client_random,
            st.hs.key_schedule.client_secret(st.hs.hash_at_server_hello),
        )
    } else {
        s.config.key_log
    });
    assert(s3.config == s2.config && s3.common.suite == s2.common.suite && s3.common.protocol
        == s2.common.protocol);
    assert(s3.common.quic.traffic_secrets == s.common.quic.traffic_secrets);
    stages_follow_each_other(alg, Seq::empty(), st.hs.key_schedule.ks, Seq::empty());
    let stage = st.hs.key_schedule.ks.with_no_secret();
    stage_secrets_are_extracted(stage, Label::ClientApplicationTraffic, hash);
    stage_secrets_are_extracted(stage, Label::ServerApplicationTraffic, hash);
    stage_secrets_are_extracted(stage, Label::ExporterMaster, hash);
    stage_secrets_are_extracted(
        st.hs.key_schedule.ks,
        Label::ClientHandshakeTraffic,
        st.hs.hash_at_server_hello,
    );
    keys_come_of_the_secret(suite, stage.derived(Label::ClientApplicationTraffic, hash));
    keys_come_of_the_secret(suite, stage.derived(Label::ServerApplicationTraffic, hash));
    finished_messages_are_macs(
        alg,
        st.hs.key_schedule.server->0,
        st.hs.transcript.current_hash(),
    );
}

/// The client's Finished message is a signature of all messages before it, the server's
/// Finished message and the client's own answer included, under the client's secret of the
/// handshake. The transcript of the running session ends with it.
pub proof fn client_finished_signs_everything_before_it<T: Hooks>(
    st: ExpectFinishedView<T>,
    s: SessionView<T>,
    m: MessageView,
    sig: Result<Seq<u8>, TlsErrorView>,
    next: ClientStateView<T>,
    s1: SessionView<T>,
)
    requires
        finished_handled(st, s, m, sig) == (Ok::<ClientStateView<T>, TlsErrorView>(next), s1),
    ensures
        ({
            let alg = st.hs.key_schedule.ks.algorithm;
            let running = match next {
                ClientStateView::ExpectQUICTraffic(running) => running,
                _ => next->ExpectTraffic_0,
            };
            let seen = st.hs.transcript.bytes + bytes_of(m);
            &&& running.transcript.alg == st.hs.transcript.alg
            &&& exists|answer: Seq<u8>|
                running.transcript.bytes == #[trigger] (seen + answer) + bytes_of(
                    MessageView::handshake(
                        HandshakeType::Finished,
                        HandshakePayloadView::Finished(
                            finished_mac(
                                alg,
                                client_handshake_secret(st, s),
                                digest_of(st.hs.transcript.alg->0, seen + answer),
                            ),
                        ),
                    ),
                )
        }),
{
    labels_are_their_texts();
    let alg = st.hs.key_schedule.ks.algorithm;
    let seen = st.hs.transcript.bytes + bytes_of(m);
    let (ks, t2, s2) = st.before_auth(s, m);
    let (_, t3, s3) = client_auth_sent(t2, st.client_auth, s2, sig);
    assert(t2.bytes.take(seen.len() as int) =~= seen);
    assert(t3.bytes.take(t2.bytes.len() as int) =~= t2.bytes);
    let answer = t3.bytes.skip(seen.len() as int);
    assert(t3.bytes.take(seen.len() as int) =~= t2.bytes.take(seen.len() as int));
    assert(seen + answer =~= t3.bytes);
    stage_secrets_are_extracted(
        st.hs.key_schedule.ks,
        Label::ClientHandshakeTraffic,
        st.hs.hash_at_server_hello,
    );
    finished_messages_are_macs(alg, client_handshake_secret(st, s), t3.current_hash());
}

/// The secret that a ticket stands for: expanded, with the ticket's own nonce, from a secret of
/// the running session that depends on the whole handshake.
pub open spec fn secret_of_ticket(st: ExpectTrafficView, nst: NewSessionTicketView) -> Seq<u8> {
    let alg = st.key_schedule.ks.algorithm;
    labelled(
        alg,
        stage_secret(
            st.key_schedule.ks,
            ascii("res master"@),
            digest_of(st.transcript.alg->0, st.transcript.bytes),
        ),
        ascii("resumption"@),
        nst.nonce,
        hash_len(alg),
    )
}

proof fn lemma_suite_fits(suite: SupportedCipherSuite)
    ensures
        CipherSuite::of_wire(suite.spec_suite().wire()) == suite.spec_suite(),
        ProtocolVersion::of_wire(ProtocolVersion::TLSv1_3.wire()) == ProtocolVersion::TLSv1_3,
{
}

proof fn lemma_session_key(name: Seq<u8>)
    ensures
        session_key(SessionKeyKind::Session, name) == ascii("session"@) + name,
{
    reveal_strlit("session");
    assert(session_key(SessionKeyKind::Session, name) =~= ascii("session"@) + name);
}

proof fn lemma_ticket_bytes<T: Hooks>(
    st: ExpectTrafficView,
    s: SessionView<T>,
    nst: NewSessionTicketView,
    now: u64,
) -> (n: nat)
    requires
        st.ticket_value(s, nst, now).fits(),
    ensures
        decodes_to(st.ticket_bytes(s, nst, now), st.ticket_value(s, nst, now), n),
        st.ticket_bytes(s, nst, now).skip(n as int) == if s.common.is_quic() {
            prefixed_u16(s.common.quic.params->0)
        } else {
            Seq::empty()
        },
{
    reveal(decodes_to);
    let value = st.ticket_value(s, nst, now);
    let front = ClientSessionValue::encoding(value);
    let tail = if s.common.is_quic() {
        prefixed_u16(s.common.quic.params->0)
    } else {
        Seq::empty()
    };
    let bytes = st.ticket_bytes(s, nst, now);
    assert(bytes =~= front + tail);
    client_session_reads_back(value, tail);
    assert(bytes.skip(front.len() as int) =~= tail);
    front.len()
}

/// What a ticket leaves in the store under the server's name is, when it is read back, the
/// session that the ticket resumes: its secret is the one that the server ties to this very
/// ticket by its nonce, and all else is what the ticket says or what holds of the session.
/// With QUIC, the server's transport parameters follow. The session is left alone but for the
/// store.
pub proof fn kept_session_is_that_of_the_ticket<T: Hooks>(
    st: ExpectTrafficView,
    s: SessionView<T>,
    m: MessageView,
    nst: NewSessionTicketView,
    now: u64,
)
    requires
        m.typ == ContentType::Handshake,
        handshake_payload(m) == Some(HandshakePayloadView::NewSessionTicketTLS13(nst)),
        st.handled(s, m, Some(now)).0 is Ok,
        s.common.suite is Some,
        nst.ticket.len() < 0x1_0000,
        secret_of_ticket(st, nst).len() < 0x100,
        chain_fits(s.server_cert_chain),
    ensures
        st.handled(s, m, Some(now)) == st.handled_in_quic(s, m, Some(now)),
        st.handled(s, m, Some(now)).0 == Ok::<ExpectTrafficView, TlsErrorView>(st),
        ({
            let s1 = st.handled(s, m, Some(now)).1;
            &&& s1 == (SessionView {
                config: ConfigView { store: s1.config.store, ..s.config },
                ..s
            })
            &&& exists|bytes: Seq<u8>, value: ClientSessionValueView, n: nat|
                {
                    &&& s1.config.store == #[trigger] T::Store::after_put(
                        s.config.store,
                        ascii("session"@) + st.dns_name,
                        bytes,
                    ).0
                    &&& #[trigger] decodes_to(bytes, value, n)
                    &&& value.master_secret == secret_of_ticket(st, nst)
                    &&& value.ticket == nst.ticket
                    &&& value.lifetime == nst.lifetime
                    &&& value.age_add == nst.age_add
                    &&& value.max_early_data_size == match nst.max_early_data_size() {
                        Some(size) => size,
                        None => 0,
                    }
                    &&& value.epoch == now
                    &&& value.version == ProtocolVersion::TLSv1_3
                    &&& value.cipher_suite == s.common.suite->0.spec_suite()
                    &&& value.server_cert_chain == s.server_cert_chain
                    &&& value.session_id.len() == 0
                    &&& !value.extended_ms
                    &&& bytes.skip(n as int) == if s.common.protocol == Protocol::Quic {
                        prefixed_u16(s.common.quic.params->0)
                    } else {
                        Seq::empty()
                    }
                }
        }),
{
    labels_are_their_texts();
    let alg = st.key_schedule.ks.algorithm;
    let hash = st.transcript.current_hash();
    stage_secrets_are_extracted(st.key_schedule.ks, Label::ResumptionMaster, hash);
    expansion_is_labelled(
        alg,
        st.key_schedule.ks.derived(Label::ResumptionMaster, hash),
        ascii("resumption"@),
        nst.nonce,
        hash_len(alg),
    );
    let value = st.ticket_value(s, nst, now);
    assert(value.master_secret == secret_of_ticket(st, nst));
    let bytes = st.ticket_bytes(s, nst, now);
    lemma_suite_fits(s.common.suite->0);
    let n = lemma_ticket_bytes(st, s, nst, now);
    lemma_session_key(st.dns_name);
    let s1 = st.handled(s, m, Some(now)).1;
    assert(decodes_to(bytes, value, n));
    assert(s1.config.store == T::Store::after_put(
        s.config.store,
        ascii("session"@) + st.dns_name,
        bytes,
    ).0);
}

/// Whether a kept session stands at the front of some bytes, and takes up that many of them.
#[verifier::opaque]
pub open spec fn decodes_to(bytes: Seq<u8>, value: ClientSessionValueView, n: nat) -> bool {
    ClientSessionValue::decoding(bytes) == Some((value, n))
}

/// A key update that is followed changes the server's secret to the one that is expanded from
/// it, and what is received from then on is protected with that one. Nothing that is sent
/// changes until the client answers, which it owes where it was asked to.
pub proof fn key_update_moves_to_the_next_server_secret<T: Hooks>(
    st: ExpectTrafficView,
    s: SessionView<T>,
    kur: KeyUpdateRequest,
)
    requires
        st.key_update_handled(s, kur).0 is Ok,
        st.key_schedule.server is Some,
        s.common.suite is Some,
    ensures
        ({
            let (_, next, s1) = st.key_update_handled(s, kur);
            let alg = st.key_schedule.ks.algorithm;
            let server = labelled(
                alg,
                st.key_schedule.server->0,
                ascii("traffic upd"@),
                Seq::empty(),
                hash_len(alg),
            );
            &&& s.common.protocol != Protocol::Quic
            &&& kur == KeyUpdateRequest::UpdateRequested || kur
                == KeyUpdateRequest::UpdateNotRequested
            &&& next.key_schedule == (KeyScheduleTrafficView {
                server: Some(server),
                ..st.key_schedule
            })
            &&& next.want_write_key_update <==> st.want_write_key_update || kur
                == KeyUpdateRequest::UpdateRequested
            &&& next.transcript == st.transcript
            &&& next.dns_name == st.dns_name
            &&& keyed_by(s1.common.record_layer.decrypter, s.common.suite->0, server)
            &&& s1.common.record_layer.encrypter == s.common.record_layer.encrypter
            &&& s1.common.sendable_tls == s.common.sendable_tls
            &&& s1.config == s.config
        }),
{
    labels_are_their_texts();
    let alg = st.key_schedule.ks.algorithm;
    let old_secret = st.key_schedule.server->0;
    expansion_is_labelled(alg, old_secret, ascii("traffic upd"@), Seq::empty(), hash_len(alg));
    keys_come_of_the_secret(s.common.suite->0, next_traffic_secret(alg, old_secret));
}

/// The answer to a key update changes the client's secret to the one that is expanded from
/// it, and what is sent after the answer is protected with that one.
pub proof fn answered_key_update_moves_to_the_next_client_secret<T: Hooks>(
    st: ExpectTrafficView,
    s: SessionView<T>,
)
    requires
        st.want_write_key_update,
        st.key_schedule.client is Some,
        s.common.suite is Some,
    ensures
        ({
            let (next, s1) = st.key_update_written(s);
            let alg = st.key_schedule.ks.algorithm;
            let client = labelled(
                alg,
                st.key_schedule.client->0,
                ascii("traffic upd"@),
                Seq::empty(),
                hash_len(alg),
            );
            &&& next.key_schedule == (KeyScheduleTrafficView {
                client: Some(client),
                ..st.key_schedule
            })
            &&& !next.want_write_key_update
            &&& next.transcript == st.transcript
            &&& keyed_by(s1.common.record_layer.encrypter, s.common.suite->0, client)
            &&& s1.common.sendable_tls.last().typ == ContentType::Handshake
            &&& s1.common.sendable_tls.last().payload == seq![24u8, 0, 0, 1, 0]
        }),
{
    labels_are_their_texts();
    let alg = st.key_schedule.ks.algorithm;
    let old_secret = st.key_schedule.client->0;
    expansion_is_labelled(alg, old_secret, ascii("traffic upd"@), Seq::empty(), hash_len(alg));
    keys_come_of_the_secret(s.common.suite->0, next_traffic_secret(alg, old_secret));
    assert(st.key_update_written(s).1.common.sendable_tls.last().payload =~= seq![
        24u8,
        0,
        0,
        1,
        0,
    ]);
}

/// What a ServerHello comes to: whether the secret of the session to resume is in the schedule
/// is settled by whether the ServerHello selects that session, and by nothing else. The
/// exchanged secret is that of the share in the server's group, and none of the shares is
/// left.
pub proof fn server_hello_settles_the_schedule<T: Hooks>(
    s: SessionView<T>,
    suite: SupportedCipherSuite,
    early: KeyScheduleView,
    server_hello: ServerHelloView,
    handshake: HandshakeDetailsView,
    name: Seq<u8>,
    hash: Seq<u8>,
    hello: ClientHelloDetailsView,
    client_random: Seq<u8>,
)
    requires
        traffic_start_outcome(
            s,
            suite,
            Some(early),
            server_hello,
            handshake,
            name,
            hash,
            hello,
            client_random,
        ).0 is Ok,
    ensures
        ({
            let (r, _, handshake1, hello1) = traffic_start_outcome(
                s,
                suite,
                Some(early),
                server_hello,
                handshake,
                name,
                hash,
                hello,
                client_random,
            );
            let theirs = server_hello.key_share()->0;
            let stage = r->Ok_0.ks;
            &&& server_hello.key_share() is Some
            &&& exists|i: int|
                {
                    let ours = #[trigger] hello.offered_key_shares[i];
                    let shared = ours.agreed(theirs.payload);
                    &&& 0 <= i < hello.offered_key_shares.len()
                    &&& ours.group.spec_name() == theirs.group
                    &&& shared is Some
                    &&& server_hello.psk_index() is Some ==> follows(stage, early, shared->0)
                    &&& server_hello.psk_index() is None ==> exists|first: KeyScheduleView|
                        begins(first, suite.spec_hash(), blank(hash_len(suite.spec_hash())))
                            && #[trigger] follows(stage, first, shared->0)
                }
            &&& handshake1.resuming_session == if server_hello.psk_index() is Some {
                handshake.resuming_session
            } else {
                None
            }
            &&& hello1.offered_key_shares.len() == 0
        }),
{
    let theirs = server_hello.key_share()->0;
    share_at_finds_a_share(hello.offered_key_shares, theirs.group);
    let i = share_at(hello.offered_key_shares, theirs.group)->0;
    let ours = hello.offered_key_shares[i];
    handshake_secrets_come_of_psk_and_exchange(
        s,
        suite,
        early,
        server_hello.psk_index(),
        handshake.resuming_session,
        name,
        theirs.group,
        ours.agreed(theirs.payload)->0,
        hash,
        client_random,
    );
}

} // verus!
