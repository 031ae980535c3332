//! Signalling state of a streaming session: remote ICE candidates that arrive before the
//! remote description are held back and replayed, in arrival order, once it is set; and the
//! original remote ICE credentials of the offer are restored on the negotiated ICE streams.
use vstd::prelude::*;
use crate::log_line::{log_views, push_log, LogLevel, LogLine, LogModel};
use crate::text::{append_decimal, append_str, chars_of, decimal, trim, trim_bounds};

verus! {

/// What the signalling state holds: the held-back candidates, whether the remote description
/// was set, and whether a pipeline is running.
pub struct SignalingModel<T> {
    pub pending: Seq<T>,
    pub description_set: bool,
    pub pipeline_ready: bool,
}

/// The signalling state of a session.
pub struct SignalingState<T> {
    pending_remote_ice: Vec<T>,
    remote_description_set: bool,
    pipeline_ready: bool,
}

impl<T> View for SignalingState<T> {
    type V = SignalingModel<T>;

    closed spec fn view(&self) -> SignalingModel<T> {
        SignalingModel {
            pending: self.pending_remote_ice@,
            description_set: self.remote_description_set,
            pipeline_ready: self.pipeline_ready,
        }
    }
}

/// Whether a candidate is applied at once: the remote description is set and a pipeline runs.
pub open spec fn applies_now<T>(m: SignalingModel<T>) -> bool {
    m.description_set && m.pipeline_ready
}

/// The state after a candidate arrives: unchanged when it is applied at once, else the
/// candidate is held back after the others.
pub open spec fn after_add<T>(m: SignalingModel<T>, c: T) -> SignalingModel<T> {
    if applies_now(m) {
        m
    } else {
        SignalingModel { pending: m.pending.push(c), ..m }
    }
}

/// The state after the candidates `cs` arrive one by one.
pub open spec fn after_adds<T>(m: SignalingModel<T>, cs: Seq<T>) -> SignalingModel<T>
    decreases cs.len(),
{
    if cs.len() == 0 {
        m
    } else {
        after_add(after_adds(m, cs.drop_last()), cs.last())
    }
}

/// The candidates replayed once the remote description is set: all held-back ones when a
/// pipeline runs, none otherwise.
pub open spec fn replayed<T>(m: SignalingModel<T>) -> Seq<T> {
    if m.pipeline_ready {
        m.pending
    } else {
        Seq::empty()
    }
}

/// The state after the remote description is set and the held-back candidates replayed.
pub open spec fn after_description<T>(m: SignalingModel<T>) -> SignalingModel<T> {
    SignalingModel {
        pending: if m.pipeline_ready {
            Seq::empty()
        } else {
            m.pending
        },
        description_set: true,
        pipeline_ready: m.pipeline_ready,
    }
}

impl<T> SignalingState<T> {
    /// A session with no pipeline yet.
    pub fn new() -> (r: Self)
        ensures
            r@.pending == Seq::<T>::empty(),
            !r@.description_set,
            !r@.pipeline_ready,
    {
        SignalingState { pending_remote_ice: Vec::new(), remote_description_set: false, pipeline_ready: false }
    }

    /// A new pipeline started: nothing is held back and no remote description is set.
    pub fn start(&mut self)
        ensures
            final(self)@.pending == Seq::<T>::empty(),
            !final(self)@.description_set,
            final(self)@.pipeline_ready,
    {
        self.pending_remote_ice = Vec::new();
        self.remote_description_set = false;
        self.pipeline_ready = true;
    }

    /// The session stopped: everything is forgotten.
    pub fn stop(&mut self)
        ensures
            final(self)@.pending == Seq::<T>::empty(),
            !final(self)@.description_set,
            !final(self)@.pipeline_ready,
    {
        self.pending_remote_ice = Vec::new();
        self.remote_description_set = false;
        self.pipeline_ready = false;
    }

    /// A remote candidate arrived: it comes back to be applied at once, or is held back.
    pub fn add_remote_ice(&mut self, candidate: T) -> (r: Option<T>)
        ensures
            final(self)@ == after_add(old(self)@, candidate),
            applies_now(old(self)@) ==> r == Some(candidate),
            !applies_now(old(self)@) ==> r is None,
    {
        if self.remote_description_set && self.pipeline_ready {
            Some(candidate)
        } else {
            self.pending_remote_ice.push(candidate);
            None
        }
    }

    /// The remote description was set: marks it, and hands back the held-back candidates
    /// to replay, in arrival order.
    pub fn remote_description_applied(&mut self) -> (r: Vec<T>)
        ensures
            r@ == replayed(old(self)@),
            final(self)@ == after_description(old(self)@),
    {
        self.remote_description_set = true;
        if self.pipeline_ready {
            let mut taken: Vec<T> = Vec::new();
            std::mem::swap(&mut taken, &mut self.pending_remote_ice);
            taken
        } else {
            Vec::new()
        }
    }
}

/// Candidates that arrive before the remote description are all replayed, in arrival order,
/// once it is set on a running pipeline.
pub proof fn law_early_candidates_replayed_in_order<T>(m: SignalingModel<T>, cs: Seq<T>)
    requires
        !m.description_set,
        m.pipeline_ready,
    ensures
        replayed(after_adds(m, cs)) == m.pending + cs,
    decreases cs.len(),
{
    if cs.len() == 0 {
        assert(m.pending + cs =~= m.pending);
    } else {
        law_early_candidates_replayed_in_order(m, cs.drop_last());
        lemma_adds_keep_flags(m, cs.drop_last());
        assert(m.pending + cs =~= (m.pending + cs.drop_last()).push(cs.last()));
    }
}

/// Adding candidates changes neither flag.
pub proof fn lemma_adds_keep_flags<T>(m: SignalingModel<T>, cs: Seq<T>)
    ensures
        after_adds(m, cs).description_set == m.description_set,
        after_adds(m, cs).pipeline_ready == m.pipeline_ready,
    decreases cs.len(),
{
    if cs.len() > 0 {
        lemma_adds_keep_flags(m, cs.drop_last());
    }
}

/// A replay empties the queue: a second one replays nothing, and every later candidate is
/// applied at once.
pub proof fn law_replay_happens_once<T>(m: SignalingModel<T>, c: T)
    requires
        m.pipeline_ready,
    ensures
        replayed(after_description(m)) == Seq::<T>::empty(),
        applies_now(after_description(m)),
        after_add(after_description(m), c) == after_description(m),
{
}

/// The error for a remote candidate with only white space.
pub open spec fn spec_candidate_error(candidate: Seq<char>) -> Option<Seq<char>> {
    if trim(candidate).len() == 0 {
        Some("Remote ICE candidate is empty."@)
    } else {
        None
    }
}

/// Checks a remote candidate before it is handed to the ICE agent.
pub fn check_remote_candidate(candidate: &str) -> (r: Result<(), String>)
    ensures
        r is Ok <==> spec_candidate_error(candidate@) is None,
        r matches Err(e) ==> spec_candidate_error(candidate@) == Some(e@),
{
    let v = chars_of(candidate);
    let (start, end) = trim_bounds(&v, 0, v.len());
    assert(v@.subrange(0, v@.len() as int) =~= v@);
    if start == end {
        Err(String::from_str("Remote ICE candidate is empty."))
    } else {
        Ok(())
    }
}

/// The ICE username fragment and password of a remote offer.
#[derive(Debug, Clone)]
pub struct IceCredentials {
    pub ufrag: String,
    pub pwd: String,
}

/// How a restoration attempt begins.
#[derive(Debug, Clone, Copy, PartialEq, Eq, Structural)]
pub enum RestoreStart {
    /// Already restored earlier: the attempt succeeds at once.
    AlreadyRestored,
    /// No credentials to restore: the attempt reports no restoration.
    NoCredentials,
    /// Go ahead with the negotiated ICE streams.
    Proceed,
}

/// The original remote ICE credentials and whether they were restored.
pub struct CredentialRestore {
    original: Option<IceCredentials>,
    restored: bool,
}

pub open spec fn creds_view(c: Option<IceCredentials>) -> Option<(Seq<char>, Seq<char>)> {
    match c {
        Some(c) => Some((c.ufrag@, c.pwd@)),
        None => None,
    }
}

/// What a restoration attempt first decides: success when already restored; nothing to do
/// without credentials; an error when either credential is empty; else proceed.
pub open spec fn spec_restore_start(original: Option<(Seq<char>, Seq<char>)>, restored: bool) -> Result<
    RestoreStart,
    Seq<char>,
> {
    if restored {
        Ok(RestoreStart::AlreadyRestored)
    } else {
        match original {
            None => Ok(RestoreStart::NoCredentials),
            Some((ufrag, pwd)) => if ufrag.len() == 0 || pwd.len() == 0 {
                Err(
                    "Cannot restore original remote ICE credentials: offer credentials are empty."@,
                )
            } else {
                Ok(RestoreStart::Proceed)
            },
        }
    }
}

/// The error for credentials that cannot be handed over as C strings.
pub open spec fn spec_nul_error(ufrag: Seq<char>, pwd: Seq<char>) -> Option<Seq<char>> {
    if ufrag.contains('\0') {
        Some("Cannot restore original remote ICE credentials: ufrag contains NUL."@)
    } else if pwd.contains('\0') {
        Some("Cannot restore original remote ICE credentials: pwd contains NUL."@)
    } else {
        None
    }
}

/// The number of `true`s.
pub open spec fn count_true(s: Seq<bool>) -> nat
    decreases s.len(),
{
    if s.len() == 0 {
        0
    } else {
        count_true(s.drop_last()) + if s.last() {
            1nat
        } else {
            0nat
        }
    }
}

/// The `Debug` rendering of the numbers, separated by `, `, without the brackets.
pub open spec fn joined_ids(ids: Seq<u32>) -> Seq<char>
    decreases ids.len(),
{
    if ids.len() == 0 {
        Seq::empty()
    } else if ids.len() == 1 {
        decimal(ids[0] as nat)
    } else {
        joined_ids(ids.drop_last()) + ", "@ + decimal(ids.last() as nat)
    }
}

/// The warnings for the streams whose ICE agent rejected the credentials, in stream order.
pub open spec fn rejection_logs(ids: Seq<u32>, accepted: Seq<bool>) -> Seq<LogModel>
    decreases ids.len(),
{
    if ids.len() == 0 || accepted.len() == 0 {
        Seq::empty()
    } else {
        rejection_logs(ids.drop_last(), accepted.drop_last()) + if accepted.last() {
            Seq::<LogModel>::empty()
        } else {
            seq![
                (
                    LogLevel::Warn,
                    "GStreamer ICE agent rejected original remote credentials for actual stream "@
                        + decimal(ids.last() as nat) + "."@,
                ),
            ]
        }
    }
}

/// The result and the log of a restoration attempt on the negotiated streams with ids
/// `ids`, of which the ICE agent accepted the credentials where `accepted` holds.
pub open spec fn spec_restore_finish(stage: Seq<char>, ids: Seq<u32>, accepted: Seq<bool>) -> (
    bool,
    Seq<LogModel>,
) {
    if ids.len() == 0 {
        (
            false,
            seq![
                (
                    LogLevel::Warn,
                    "GStreamer has not exposed actual NICE ICE streams "@ + stage
                        + "; deferring GFN remote ICE credential restoration."@,
                ),
            ],
        )
    } else if count_true(accepted) == 0 {
        (
            false,
            rejection_logs(ids, accepted) + seq![
                (
                    LogLevel::Warn,
                    "GStreamer rejected original GFN remote ICE credentials on all actual streams "@
                        + stage + "; ICE may fail."@,
                ),
            ],
        )
    } else {
        (
            true,
            rejection_logs(ids, accepted) + seq![
                (
                    LogLevel::Info,
                    "Restored original GFN remote ICE credentials on "@ + decimal(
                        count_true(accepted),
                    ) + "/"@ + decimal(ids.len()) + " actual GStreamer NICE ICE stream(s) "@ + stage
                        + "; streamIds=["@ + joined_ids(ids) + "]."@,
                ),
            ],
        )
    }
}

fn contains_nul(s: &str) -> (r: bool)
    ensures
        r == s@.contains('\0'),
{
    let v = chars_of(s);
    let mut i: usize = 0;
    while i < v.len()
        invariant
            i <= v.len(),
            v@ == s@,
            forall|j: int| 0 <= j < i ==> v@[j] != '\0',
        decreases v.len() - i,
    {
        if v[i] == '\0' {
            assert(s@[i as int] == '\0');
            return true;
        }
        i += 1;
    }
    false
}

impl CredentialRestore {
    pub closed spec fn spec_original(&self) -> Option<(Seq<char>, Seq<char>)> {
        creds_view(self.original)
    }

    pub closed spec fn spec_restored(&self) -> bool {
        self.restored
    }

    /// Nothing to restore yet.
    pub fn new() -> (r: Self)
        ensures
            r.spec_original() is None,
            !r.spec_restored(),
    {
        CredentialRestore { original: None, restored: false }
    }

    /// Remembers the credentials of the offer, for later restoration.
    pub fn remember(&mut self, credentials: IceCredentials)
        ensures
            final(self).spec_original() == Some((credentials.ufrag@, credentials.pwd@)),
            final(self).spec_restored() == old(self).spec_restored(),
    {
        self.original = Some(credentials);
    }

    /// The first decision of a restoration attempt, as `spec_restore_start` says.
    pub fn start(&self) -> (r: Result<RestoreStart, String>)
        ensures
            match (r, spec_restore_start(self.spec_original(), self.spec_restored())) {
                (Ok(a), Ok(b)) => a == b,
                (Err(a), Err(b)) => a@ == b,
                _ => false,
            },
    {
        if self.restored {
            return Ok(RestoreStart::AlreadyRestored);
        }
        match &self.original {
            None => Ok(RestoreStart::NoCredentials),
            Some(c) => {
                if c.ufrag.as_str().unicode_len() == 0 || c.pwd.as_str().unicode_len() == 0 {
                    Err(
                        String::from_str(
                            "Cannot restore original remote ICE credentials: offer credentials are empty.",
                        ),
                    )
                } else {
                    Ok(RestoreStart::Proceed)
                }
            },
        }
    }

    /// The credentials to hand to the ICE agent, or the error when one holds a NUL character.
    pub fn credentials_for_agent(&self) -> (r: Result<(String, String), String>)
        requires
            self.spec_original() is Some,
        ensures
            ({
                let (ufrag, pwd) = self.spec_original().unwrap();
                match (r, spec_nul_error(ufrag, pwd)) {
                    (Ok((u, p)), None) => u@ == ufrag && p@ == pwd,
                    (Err(e), Some(m)) => e@ == m,
                    _ => false,
                }
            }),
    {
        match &self.original {
            Some(c) => {
                if contains_nul(c.ufrag.as_str()) {
                    Err(String::from_str("Cannot restore original remote ICE credentials: ufrag contains NUL."))
                } else if contains_nul(c.pwd.as_str()) {
                    Err(String::from_str("Cannot restore original remote ICE credentials: pwd contains NUL."))
                } else {
                    Ok((c.ufrag.clone(), c.pwd.clone()))
                }
            },
            None => Err(String::new()),
        }
    }

    /// Concludes an attempt on the negotiated streams `stream_ids`, where `accepted` says
    /// for each whether the ICE agent took the credentials; returns whether they are now
    /// restored, with the log of the attempt.
    pub fn finish(&mut self, stage: &str, stream_ids: &Vec<u32>, accepted: &Vec<bool>) -> (r: (
        bool,
        Vec<LogLine>,
    ))
        requires
            stream_ids.len() == accepted.len(),
        ensures
            (r.0, log_views(r.1@)) == spec_restore_finish(stage@, stream_ids@, accepted@),
            final(self).spec_restored() == (old(self).spec_restored() || r.0),
            final(self).spec_original() == old(self).spec_original(),
    {
        let mut logs: Vec<LogLine> = Vec::new();
        if stream_ids.len() == 0 {
            let mut m = String::from_str("GStreamer has not exposed actual NICE ICE streams ");
            append_str(&mut m, stage);
            append_str(&mut m, "; deferring GFN remote ICE credential restoration.");
            push_log(&mut logs, LogLevel::Warn, m);
            assert(log_views(logs@) =~= spec_restore_finish(stage@, stream_ids@, accepted@).1);
            return (false, logs);
        }
        let mut restored: u64 = 0;
        let mut i: usize = 0;
        while i < stream_ids.len()
            invariant
                i <= stream_ids.len() == accepted.len(),
                restored as nat == count_true(accepted@.subrange(0, i as int)),
                restored <= i,
                log_views(logs@) == rejection_logs(
                    stream_ids@.subrange(0, i as int),
                    accepted@.subrange(0, i as int),
                ),
            decreases stream_ids.len() - i,
        {
            let ghost ids_before = stream_ids@.subrange(0, i as int);
            let ghost acc_before = accepted@.subrange(0, i as int);
            assert(stream_ids@.subrange(0, i + 1).drop_last() =~= ids_before);
            assert(accepted@.subrange(0, i + 1).drop_last() =~= acc_before);
            if accepted[i] {
                restored = restored + 1;
                assert(log_views(logs@) =~= rejection_logs(
                    stream_ids@.subrange(0, i + 1),
                    accepted@.subrange(0, i + 1),
                ));
            } else {
                let mut m = String::from_str(
                    "GStreamer ICE agent rejected original remote credentials for actual stream ",
                );
                append_decimal(&mut m, stream_ids[i] as u64);
                append_str(&mut m, ".");
                push_log(&mut logs, LogLevel::Warn, m);
                assert(log_views(logs@) =~= rejection_logs(
                    stream_ids@.subrange(0, i + 1),
                    accepted@.subrange(0, i + 1),
                ));
            }
            i += 1;
        }
        assert(stream_ids@.subrange(0, i as int) =~= stream_ids@);
        assert(accepted@.subrange(0, i as int) =~= accepted@);
        if restored == 0 {
            let mut m = String::from_str(
                "GStreamer rejected original GFN remote ICE credentials on all actual streams ",
            );
            append_str(&mut m, stage);
            append_str(&mut m, "; ICE may fail.");
            push_log(&mut logs, LogLevel::Warn, m);
            return (false, logs);
        }
        self.restored = true;
        let mut m = String::from_str("Restored original GFN remote ICE credentials on ");
        append_decimal(&mut m, restored);
        append_str(&mut m, "/");
        append_decimal(&mut m, stream_ids.len() as u64);
        append_str(&mut m, " actual GStreamer NICE ICE stream(s) ");
        append_str(&mut m, stage);
        append_str(&mut m, "; streamIds=[");
        append_joined_ids(&mut m, stream_ids);
        append_str(&mut m, "].");
        push_log(&mut logs, LogLevel::Info, m);
        (true, logs)
    }
}

fn append_joined_ids(s: &mut String, ids: &Vec<u32>)
    ensures
        final(s)@ == old(s)@ + joined_ids(ids@),
{
    let mut i: usize = 0;
    while i < ids.len()
        invariant
            i <= ids.len(),
            s@ == old(s)@ + joined_ids(ids@.subrange(0, i as int)),
        decreases ids.len() - i,
    {
        assert(ids@.subrange(0, i + 1).drop_last() =~= ids@.subrange(0, i as int));
        if i > 0 {
            append_str(s, ", ");
        }
        append_decimal(s, ids[i] as u64);
        i += 1;
    }
    assert(ids@.subrange(0, i as int) =~= ids@);
}

/// The negotiated ICE streams, each once: the first occurrence of every stream handle, in
/// order.
pub open spec fn first_occurrences(handles: Seq<(usize, u32)>) -> Seq<(usize, u32)>
    decreases handles.len(),
{
    if handles.len() == 0 {
        Seq::empty()
    } else {
        let rest = first_occurrences(handles.drop_last());
        if keeps_handle(rest, handles.last().0) {
            rest
        } else {
            rest.push(handles.last())
        }
    }
}

/// Keeps the first occurrence of each stream handle (its address), dropping the later ones.
pub fn dedup_ice_streams(streams: &Vec<(usize, u32)>) -> (r: Vec<(usize, u32)>)
    ensures
        r@ == first_occurrences(streams@),
{
    let mut r: Vec<(usize, u32)> = Vec::new();
    let mut i: usize = 0;
    while i < streams.len()
        invariant
            i <= streams.len(),
            r@ == first_occurrences(streams@.subrange(0, i as int)),
        decreases streams.len() - i,
    {
        let ghost before = streams@.subrange(0, i as int);
        assert(streams@.subrange(0, i + 1).drop_last() =~= before);
        assert(streams@.subrange(0, i + 1).last() == streams@[i as int]);
        let (ptr, id) = streams[i];
        let mut seen = false;
        let mut j: usize = 0;
        while j < r.len()
            invariant
                j <= r.len(),
                seen <==> exists|k: int| 0 <= k < j && r@[k].0 == ptr,
            decreases r.len() - j,
        {
            if r[j].0 == ptr {
                seen = true;
            }
            j += 1;
        }
        if !seen {
            r.push((ptr, id));
        }
        i += 1;
    }
    assert(streams@.subrange(0, i as int) =~= streams@);
    r
}

/// Whether some kept stream has the handle `handle`.
pub open spec fn keeps_handle(kept: Seq<(usize, u32)>, handle: usize) -> bool {
    exists|i: int| 0 <= i < kept.len() && #[trigger] kept[i].0 == handle
}

/// No stream handle occurs twice among the kept streams, and every handle offered is kept.
pub proof fn law_dedup_keeps_each_stream_once(handles: Seq<(usize, u32)>)
    ensures
        forall|i: int, j: int|
            0 <= i < j < first_occurrences(handles).len() ==> first_occurrences(handles)[i].0
                != first_occurrences(handles)[j].0,
        forall|k: int|
            0 <= k < handles.len() ==> keeps_handle(first_occurrences(handles), #[trigger] handles[k].0),
    decreases handles.len(),
{
    if handles.len() > 0 {
        let init = handles.drop_last();
        law_dedup_keeps_each_stream_once(init);
        let rest = first_occurrences(init);
        let all = first_occurrences(handles);
        assert forall|k: int| 0 <= k < handles.len() implies keeps_handle(all, #[trigger] handles[k].0) by {
            if k < handles.len() - 1 {
                assert(handles[k] == init[k]);
                assert(keeps_handle(rest, init[k].0));
                let i = choose|i: int| 0 <= i < rest.len() && #[trigger] rest[i].0 == init[k].0;
                assert(all[i] == rest[i]);
            } else if keeps_handle(rest, handles.last().0) {
                let i = choose|i: int| 0 <= i < rest.len() && #[trigger] rest[i].0 == handles.last().0;
                assert(all[i] == rest[i]);
            } else {
                assert(all[rest.len() as int] == handles.last());
            }
        }
    }
}

} // verus!
