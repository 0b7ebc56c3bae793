//! The persistence contract the handlers consume, and an in-memory
//! implementation of it. The contract models storage as a set of
//! accounts, each owning an ordered list of recipient keys and at most
//! one device-info record, plus a log of the mutating and reading calls
//! made against it; the handlers' contracts speak of responses in terms
//! of that log, so what a handler sent to storage, in which order, and
//! how the outcome was reported back are all pinned down.

use vstd::prelude::*;

use crate::strings::{clone_opt_string, seq_views, str_eq};

verus! {

/// Why a storage call failed.
#[derive(Clone, Copy, Debug, PartialEq, Eq, Structural)]
pub enum StorageError {
    /// The record to create is already there.
    AlreadyExists,
    /// The account or record spoken of is not there.
    NotFound,
}

/// A stored device-info record: token and platform are present or
/// absent together; both absent means the record was cleared.
#[derive(Clone, Debug, PartialEq)]
pub struct DeviceInfoRecord {
    pub token: Option<String>,
    pub platform: Option<String>,
}

pub struct DeviceInfoRecordV {
    pub token: Option<Seq<char>>,
    pub platform: Option<Seq<char>>,
}

impl View for DeviceInfoRecord {
    type V = DeviceInfoRecordV;

    open spec fn view(&self) -> DeviceInfoRecordV {
        DeviceInfoRecordV {
            token: self.token.deep_view(),
            platform: self.platform.deep_view(),
        }
    }
}

impl DeepView for DeviceInfoRecord {
    type V = DeviceInfoRecordV;

    open spec fn deep_view(&self) -> DeviceInfoRecordV {
        self@
    }
}

/// One call made against storage, as the log records it.
pub enum StorageOp {
    CreateAccount { auth: Seq<char>, signing_key: Seq<char>, did_doc: Seq<char> },
    ListRecipientKeys { auth: Seq<char> },
    AddRecipient { auth: Seq<char>, key: Seq<char> },
    RemoveRecipient { auth: Seq<char>, key: Seq<char> },
    RetrieveDeviceInfo { auth: Seq<char> },
    SetDeviceInfo { auth: Seq<char>, token: Option<Seq<char>>, platform: Option<Seq<char>> },
}

pub struct StorageEvent {
    pub op: StorageOp,
    pub ok: bool,
}

/// Index of the first occurrence of a key among stored keys, or -1.
pub open spec fn spec_first_index(keys: Seq<Seq<char>>, key: Seq<char>) -> int
    decreases keys.len(),
{
    if keys.len() == 0 {
        -1
    } else if keys[0] == key {
        0
    } else {
        let r = spec_first_index(keys.skip(1), key);
        if r == -1 {
            -1
        } else {
            r + 1
        }
    }
}

proof fn lemma_first_index_pin(keys: Seq<Seq<char>>, key: Seq<char>, i: int)
    requires
        0 <= i < keys.len(),
        keys[i] == key,
        forall|j: int| 0 <= j < i ==> keys[j] != key,
    ensures
        spec_first_index(keys, key) == i,
    decreases keys.len(),
{
    if i > 0 {
        lemma_first_index_pin(keys.skip(1), key, i - 1);
        assert(keys.skip(1)[i - 1] == keys[i]);
        assert(forall|j: int| 0 <= j < i - 1 ==> keys.skip(1)[j] == keys[j + 1]);
    }
}

/// The storage engine consumed by the handlers. Reads are exact: they
/// succeed precisely on the records the model holds. Writes may be
/// refused (a duplicate, a missing account, a failing backend), and
/// every call is appended to the log with its outcome.
pub trait MediatorPersistence: Sized {
    /// The accounts that exist, by authentication key.
    spec fn accounts(&self) -> Set<Seq<char>>;

    /// The recipient keys routed to an account, in insertion order;
    /// empty for an account that does not exist.
    spec fn recipient_keys(&self, auth: Seq<char>) -> Seq<Seq<char>>;

    /// The device-info record stored for an account, if any.
    spec fn device_record(&self, auth: Seq<char>) -> Option<DeviceInfoRecordV>;

    /// Every call made so far, with its outcome.
    spec fn log(&self) -> Seq<StorageEvent>;

    /// Create the account of an authentication key; each key owns at
    /// most one account, so a second creation is refused.
    fn create_account(&mut self, auth_pubkey: &str, our_signing_key: &str, did_doc: &str) -> (r:
        Result<(), StorageError>)
        ensures
            final(self).log() == old(self).log().push(
                StorageEvent {
                    op: StorageOp::CreateAccount {
                        auth: auth_pubkey@,
                        signing_key: our_signing_key@,
                        did_doc: did_doc@,
                    },
                    ok: r is Ok,
                },
            ),
            old(self).accounts().contains(auth_pubkey@) ==> r is Err,
            r is Ok ==> final(self).accounts() == old(self).accounts().insert(auth_pubkey@),
            r is Ok ==> final(self).recipient_keys(auth_pubkey@) == Seq::<Seq<char>>::empty()
                && final(self).device_record(auth_pubkey@) is None,
            r is Ok ==> forall|a: Seq<char>|
                a != auth_pubkey@ ==> final(self).recipient_keys(a) == old(self).recipient_keys(a),
            r is Ok ==> forall|a: Seq<char>|
                a != auth_pubkey@ ==> final(self).device_record(a) == old(self).device_record(a),
    ;

    /// List the keys routed to an account; succeeds exactly when the
    /// account exists.
    fn list_recipient_keys(&mut self, auth_pubkey: &str) -> (r: Result<Vec<String>, StorageError>)
        ensures
            final(self).log() == old(self).log().push(
                StorageEvent {
                    op: StorageOp::ListRecipientKeys { auth: auth_pubkey@ },
                    ok: r is Ok,
                },
            ),
            (r is Ok) == old(self).accounts().contains(auth_pubkey@),
            r matches Ok(keys) ==> seq_views(keys@) == old(self).recipient_keys(auth_pubkey@),
            final(self).accounts() == old(self).accounts(),
            forall|a: Seq<char>| final(self).recipient_keys(a) == old(self).recipient_keys(a),
            forall|a: Seq<char>| final(self).device_record(a) == old(self).device_record(a),
    ;

    /// Route one more key to an account.
    fn add_recipient(&mut self, auth_pubkey: &str, recipient_key: &str) -> (r: Result<
        (),
        StorageError,
    >)
        ensures
            final(self).log() == old(self).log().push(
                StorageEvent {
                    op: StorageOp::AddRecipient { auth: auth_pubkey@, key: recipient_key@ },
                    ok: r is Ok,
                },
            ),
            r is Ok ==> old(self).accounts().contains(auth_pubkey@)
                && final(self).recipient_keys(auth_pubkey@)
                == old(self).recipient_keys(auth_pubkey@).push(recipient_key@),
            r is Ok ==> final(self).accounts() == old(self).accounts(),
            r is Ok ==> forall|a: Seq<char>|
                a != auth_pubkey@ ==> final(self).recipient_keys(a) == old(self).recipient_keys(a),
            r is Ok ==> forall|a: Seq<char>| final(self).device_record(a) == old(
                self,
            ).device_record(a),
    ;

    /// Stop routing a key to an account.
    fn remove_recipient(&mut self, auth_pubkey: &str, recipient_key: &str) -> (r: Result<
        (),
        StorageError,
    >)
        ensures
            final(self).log() == old(self).log().push(
                StorageEvent {
                    op: StorageOp::RemoveRecipient { auth: auth_pubkey@, key: recipient_key@ },
                    ok: r is Ok,
                },
            ),
            r is Ok ==> old(self).recipient_keys(auth_pubkey@).contains(recipient_key@)
                && final(self).recipient_keys(auth_pubkey@)
                == old(self).recipient_keys(auth_pubkey@).remove(
                spec_first_index(old(self).recipient_keys(auth_pubkey@), recipient_key@),
            ),
            r is Ok ==> final(self).accounts() == old(self).accounts(),
            r is Ok ==> forall|a: Seq<char>|
                a != auth_pubkey@ ==> final(self).recipient_keys(a) == old(self).recipient_keys(a),
            r is Ok ==> forall|a: Seq<char>| final(self).device_record(a) == old(
                self,
            ).device_record(a),
    ;

    /// Fetch an account's device-info record; succeeds exactly when one
    /// is stored.
    fn retrieve_device_info(&mut self, auth_pubkey: &str) -> (r: Result<
        DeviceInfoRecord,
        StorageError,
    >)
        ensures
            final(self).log() == old(self).log().push(
                StorageEvent {
                    op: StorageOp::RetrieveDeviceInfo { auth: auth_pubkey@ },
                    ok: r is Ok,
                },
            ),
            (r is Ok) == (old(self).device_record(auth_pubkey@) is Some),
            r matches Ok(rec) ==> old(self).device_record(auth_pubkey@) == Some(rec@),
            final(self).accounts() == old(self).accounts(),
            forall|a: Seq<char>| final(self).recipient_keys(a) == old(self).recipient_keys(a),
            forall|a: Seq<char>| final(self).device_record(a) == old(self).device_record(a),
    ;

    /// Store an account's device-info record, replacing what was there.
    fn set_device_info(
        &mut self,
        auth_pubkey: &str,
        token: &Option<String>,
        platform: &Option<String>,
    ) -> (r: Result<(), StorageError>)
        ensures
            final(self).log() == old(self).log().push(
                StorageEvent {
                    op: StorageOp::SetDeviceInfo {
                        auth: auth_pubkey@,
                        token: token.deep_view(),
                        platform: platform.deep_view(),
                    },
                    ok: r is Ok,
                },
            ),
            r is Ok ==> old(self).accounts().contains(auth_pubkey@)
                && final(self).device_record(auth_pubkey@) == Some(
                DeviceInfoRecordV { token: token.deep_view(), platform: platform.deep_view() },
            ),
            r is Ok ==> final(self).accounts() == old(self).accounts(),
            r is Ok ==> forall|a: Seq<char>| final(self).recipient_keys(a) == old(
                self,
            ).recipient_keys(a),
            r is Ok ==> forall|a: Seq<char>|
                a != auth_pubkey@ ==> final(self).device_record(a) == old(self).device_record(a),
    ;
}

// ----------------------------------------------------- in-memory persistence

/// One account as the in-memory engine stores it.
pub struct AccountRecord {
    pub auth: String,
    pub keys: Vec<String>,
    pub device: Option<DeviceInfoRecord>,
}

/// Index of the first record of an authentication key, or -1.
pub open spec fn spec_find_account(accs: Seq<AccountRecord>, auth: Seq<char>) -> int
    decreases accs.len(),
{
    if accs.len() == 0 {
        -1
    } else if accs[0].auth@ == auth {
        0
    } else {
        let r = spec_find_account(accs.skip(1), auth);
        if r == -1 {
            -1
        } else {
            r + 1
        }
    }
}

proof fn lemma_find_account(accs: Seq<AccountRecord>, auth: Seq<char>)
    ensures
        spec_find_account(accs, auth) == -1 ==> forall|i: int|
            0 <= i < accs.len() ==> (#[trigger] accs[i]).auth@ != auth,
        spec_find_account(accs, auth) != -1 ==> 0 <= spec_find_account(accs, auth) < accs.len()
            && accs[spec_find_account(accs, auth)].auth@ == auth,
    decreases accs.len(),
{
    if accs.len() > 0 && accs[0].auth@ != auth {
        lemma_find_account(accs.skip(1), auth);
        let r = spec_find_account(accs.skip(1), auth);
        if r == -1 {
            assert forall|i: int| 0 <= i < accs.len() implies (#[trigger] accs[i]).auth@
                != auth by {
                if i >= 1 {
                    assert(accs[i] == accs.skip(1)[i - 1]);
                }
            }
        } else {
            assert(accs[r + 1] == accs.skip(1)[r]);
        }
    }
}

/// Appending a record leaves every earlier key's first match where it
/// was; the new record is found only by its own key, and only when that
/// key had no record yet.
proof fn lemma_find_account_push(accs: Seq<AccountRecord>, rec: AccountRecord, auth: Seq<char>)
    ensures
        spec_find_account(accs, auth) != -1 ==> spec_find_account(accs.push(rec), auth)
            == spec_find_account(accs, auth),
        spec_find_account(accs, auth) == -1 && rec.auth@ == auth ==> spec_find_account(
            accs.push(rec),
            auth,
        ) == accs.len(),
        spec_find_account(accs, auth) == -1 && rec.auth@ != auth ==> spec_find_account(
            accs.push(rec),
            auth,
        ) == -1,
    decreases accs.len(),
{
    if accs.len() == 0 {
        assert(accs.push(rec)[0] == rec);
        assert(accs.push(rec).skip(1) =~= Seq::<AccountRecord>::empty());
        assert(spec_find_account(Seq::<AccountRecord>::empty(), auth) == -1);
        if rec.auth@ == auth {
            assert(spec_find_account(accs.push(rec), auth) == 0);
        } else {
            assert(spec_find_account(accs.push(rec), auth) == -1);
        }
    } else {
        assert(accs.push(rec)[0] == accs[0]);
        lemma_find_account_push(accs.skip(1), rec, auth);
        lemma_find_account(accs.skip(1), auth);
        assert(accs.push(rec).skip(1) =~= accs.skip(1).push(rec));
        if accs[0].auth@ == auth {
            assert(spec_find_account(accs, auth) == 0);
            assert(spec_find_account(accs.push(rec), auth) == 0);
        } else {
            let r1 = spec_find_account(accs.skip(1), auth);
            let r2 = spec_find_account(accs.skip(1).push(rec), auth);
            assert(spec_find_account(accs.push(rec).skip(1), auth) == r2);
            if r1 != -1 {
                assert(r2 == r1);
                assert(spec_find_account(accs, auth) == r1 + 1);
                assert(spec_find_account(accs.push(rec), auth) == r2 + 1);
            } else if rec.auth@ == auth {
                assert(r2 == accs.skip(1).len());
                assert(spec_find_account(accs, auth) == -1);
                assert(spec_find_account(accs.push(rec), auth) == r2 + 1);
                assert(r2 + 1 == accs.len());
            } else {
                assert(r2 == -1);
                assert(spec_find_account(accs, auth) == -1);
                assert(spec_find_account(accs.push(rec), auth) == -1);
            }
        }
    }
}

/// Replacing a record with one of the same key moves no first match.
proof fn lemma_find_account_update(
    accs: Seq<AccountRecord>,
    i: int,
    rec: AccountRecord,
    auth: Seq<char>,
)
    requires
        0 <= i < accs.len(),
        accs[i].auth@ == rec.auth@,
    ensures
        spec_find_account(accs.update(i, rec), auth) == spec_find_account(accs, auth),
    decreases accs.len(),
{
    if accs.len() > 0 {
        if i == 0 {
            assert(accs.update(i, rec)[0] == rec);
            assert(accs.update(i, rec).skip(1) =~= accs.skip(1));
        } else {
            assert(accs.update(i, rec)[0] == accs[0]);
            assert(accs.update(i, rec).skip(1) =~= accs.skip(1).update(i - 1, rec));
            lemma_find_account_update(accs.skip(1), i - 1, rec, auth);
        }
    }
}

/// The in-memory storage engine: the production implementations live
/// behind the same contract outside this crate, and tests run against
/// this one.
pub struct MemoryPersistence {
    accounts: Vec<AccountRecord>,
    log: Ghost<Seq<StorageEvent>>,
}

impl MemoryPersistence {
    /// Empty storage: no accounts, nothing logged.
    pub fn new() -> (r: MemoryPersistence)
        ensures
            r.accounts() == Set::<Seq<char>>::empty(),
            r.log() == Seq::<StorageEvent>::empty(),
            forall|a: Seq<char>| r.recipient_keys(a) == Seq::<Seq<char>>::empty(),
            forall|a: Seq<char>| r.device_record(a) is None,
    {
        let r = MemoryPersistence { accounts: Vec::new(), log: Ghost(Seq::empty()) };
        proof {
            assert(r.accounts() =~= Set::<Seq<char>>::empty());
        }
        r
    }

    fn find_account(&self, auth_pubkey: &str) -> (r: Option<usize>)
        ensures
            r matches Some(i) ==> spec_find_account(self.accounts@, auth_pubkey@) == i as int && i
                < self.accounts@.len(),
            r is None ==> spec_find_account(self.accounts@, auth_pubkey@) == -1,
    {
        proof {
            lemma_find_account(self.accounts@, auth_pubkey@);
        }
        let n = self.accounts.len();
        let mut i: usize = 0;
        while i < n
            invariant
                i <= n,
                n == self.accounts@.len(),
                forall|j: int| 0 <= j < i ==> (#[trigger] self.accounts@[j]).auth@ != auth_pubkey@,
            decreases n - i,
        {
            if str_eq(self.accounts[i].auth.as_str(), auth_pubkey) {
                proof {
                    lemma_find_account_pin(self.accounts@, auth_pubkey@, i as int);
                }
                return Some(i);
            }
            i += 1;
        }
        None
    }
}

/// If index `i` is the first match, the finder returns exactly `i`.
proof fn lemma_find_account_pin(accs: Seq<AccountRecord>, auth: Seq<char>, i: int)
    requires
        0 <= i < accs.len(),
        accs[i].auth@ == auth,
        forall|j: int| 0 <= j < i ==> (#[trigger] accs[j]).auth@ != auth,
    ensures
        spec_find_account(accs, auth) == i,
    decreases accs.len(),
{
    if i > 0 {
        lemma_find_account_pin(accs.skip(1), auth, i - 1);
        assert(accs.skip(1)[i - 1] == accs[i]);
        assert(forall|j: int| 0 <= j < i - 1 ==> accs.skip(1)[j] == accs[j + 1]);
    }
}

impl MediatorPersistence for MemoryPersistence {
    closed spec fn accounts(&self) -> Set<Seq<char>> {
        Set::new(|a: Seq<char>| spec_find_account(self.accounts@, a) != -1)
    }

    closed spec fn recipient_keys(&self, auth: Seq<char>) -> Seq<Seq<char>> {
        let i = spec_find_account(self.accounts@, auth);
        if i == -1 {
            Seq::empty()
        } else {
            seq_views(self.accounts@[i].keys@)
        }
    }

    closed spec fn device_record(&self, auth: Seq<char>) -> Option<DeviceInfoRecordV> {
        let i = spec_find_account(self.accounts@, auth);
        if i == -1 {
            None
        } else {
            match self.accounts@[i].device {
                Some(d) => Some(d@),
                None => None,
            }
        }
    }

    closed spec fn log(&self) -> Seq<StorageEvent> {
        self.log@
    }

    fn create_account(&mut self, auth_pubkey: &str, our_signing_key: &str, did_doc: &str) -> (r:
        Result<(), StorageError>) {
        let ghost op = StorageOp::CreateAccount {
            auth: auth_pubkey@,
            signing_key: our_signing_key@,
            did_doc: did_doc@,
        };
        if self.find_account(auth_pubkey).is_some() {
            proof {
                self.log@ = self.log@.push(StorageEvent { op, ok: false });
            }
            return Err(StorageError::AlreadyExists);
        }
        let ghost old_accs = self.accounts@;
        let rec = AccountRecord { auth: auth_pubkey.to_owned(), keys: Vec::new(), device: None };
        self.accounts.push(rec);
        proof {
            self.log@ = self.log@.push(StorageEvent { op, ok: true });
            assert forall|a: Seq<char>| #[trigger]
                self.accounts().contains(a) == Set::new(
                    |x: Seq<char>| spec_find_account(old_accs, x) != -1,
                ).insert(auth_pubkey@).contains(a) by {
                lemma_find_account_push(old_accs, self.accounts@.last(), a);
            }
            assert(self.accounts() =~= Set::new(
                |x: Seq<char>| spec_find_account(old_accs, x) != -1,
            ).insert(auth_pubkey@));
            lemma_find_account_push(old_accs, self.accounts@.last(), auth_pubkey@);
            assert(self.recipient_keys(auth_pubkey@) =~= Seq::<Seq<char>>::empty());
            assert forall|a: Seq<char>| a != auth_pubkey@ implies self.recipient_keys(a) == old(
                self,
            ).recipient_keys(a) && self.device_record(a) == old(self).device_record(a) by {
                lemma_find_account_push(old_accs, self.accounts@.last(), a);
                lemma_find_account(old_accs, a);
            }
        }
        Ok(())
    }

    fn list_recipient_keys(&mut self, auth_pubkey: &str) -> (r: Result<Vec<String>, StorageError>) {
        let ghost op = StorageOp::ListRecipientKeys { auth: auth_pubkey@ };
        let idx = match self.find_account(auth_pubkey) {
            Some(i) => i,
            None => {
                proof {
                    self.log@ = self.log@.push(StorageEvent { op, ok: false });
                }
                return Err(StorageError::NotFound);
            },
        };
        let keys = &self.accounts[idx].keys;
        let n = keys.len();
        let mut out: Vec<String> = Vec::new();
        let mut i: usize = 0;
        while i < n
            invariant
                i <= n,
                n == keys@.len(),
                out@.len() == i,
                forall|j: int| 0 <= j < i ==> (#[trigger] out@[j])@ == keys@[j]@,
            decreases n - i,
        {
            let k = keys[i].clone();
            out.push(k);
            i += 1;
        }
        proof {
            self.log@ = self.log@.push(StorageEvent { op, ok: true });
            assert(seq_views(out@) =~= seq_views(keys@));
        }
        Ok(out)
    }

    fn add_recipient(&mut self, auth_pubkey: &str, recipient_key: &str) -> (r: Result<
        (),
        StorageError,
    >) {
        let ghost op = StorageOp::AddRecipient { auth: auth_pubkey@, key: recipient_key@ };
        let idx = match self.find_account(auth_pubkey) {
            Some(i) => i,
            None => {
                proof {
                    self.log@ = self.log@.push(StorageEvent { op, ok: false });
                }
                return Err(StorageError::NotFound);
            },
        };
        let ghost old_accs = self.accounts@;
        let mut rec = self.accounts.remove(idx);
        if contains_string(&rec.keys, recipient_key) {
            self.accounts.insert(idx, rec);
            proof {
                assert(self.accounts@ =~= old_accs);
                self.log@ = self.log@.push(StorageEvent { op, ok: false });
            }
            return Err(StorageError::AlreadyExists);
        }
        rec.keys.push(recipient_key.to_owned());
        self.accounts.insert(idx, rec);
        proof {
            assert(self.accounts@ =~= old_accs.update(
                idx as int,
                self.accounts@[idx as int],
            ));
            lemma_find_account_update(
                old_accs,
                idx as int,
                self.accounts@[idx as int],
                auth_pubkey@,
            );
            assert(seq_views(self.accounts@[idx as int].keys@) =~= seq_views(
                old_accs[idx as int].keys@,
            ).push(recipient_key@));
            self.log@ = self.log@.push(StorageEvent { op, ok: true });
            lemma_find_account(old_accs, auth_pubkey@);
            assert forall|a: Seq<char>| #[trigger] self.accounts().contains(a) == old(
                self,
            ).accounts().contains(a) by {
                lemma_find_account_update(old_accs, idx as int, self.accounts@[idx as int], a);
            }
            assert(self.accounts() =~= old(self).accounts());
            assert forall|a: Seq<char>| a != auth_pubkey@ implies self.recipient_keys(a) == old(
                self,
            ).recipient_keys(a) by {
                lemma_find_account_update(old_accs, idx as int, self.accounts@[idx as int], a);
                lemma_find_account(old_accs, a);
            }
            assert forall|a: Seq<char>| self.device_record(a) == old(self).device_record(a) by {
                lemma_find_account_update(old_accs, idx as int, self.accounts@[idx as int], a);
                lemma_find_account(old_accs, a);
            }
        }
        Ok(())
    }

    fn remove_recipient(&mut self, auth_pubkey: &str, recipient_key: &str) -> (r: Result<
        (),
        StorageError,
    >) {
        let ghost op = StorageOp::RemoveRecipient { auth: auth_pubkey@, key: recipient_key@ };
        let idx = match self.find_account(auth_pubkey) {
            Some(i) => i,
            None => {
                proof {
                    self.log@ = self.log@.push(StorageEvent { op, ok: false });
                }
                return Err(StorageError::NotFound);
            },
        };
        let ghost old_accs = self.accounts@;
        let mut rec = self.accounts.remove(idx);
        let key_at = match index_of_string(&rec.keys, recipient_key) {
            Some(j) => j,
            None => {
                self.accounts.insert(idx, rec);
                proof {
                    assert(self.accounts@ =~= old_accs);
                    self.log@ = self.log@.push(StorageEvent { op, ok: false });
                }
                return Err(StorageError::NotFound);
            },
        };
        let _ = rec.keys.remove(key_at);
        self.accounts.insert(idx, rec);
        proof {
            assert(seq_views(old_accs[idx as int].keys@).contains(recipient_key@));
            self.log@ = self.log@.push(StorageEvent { op, ok: true });
            assert(self.accounts@ =~= old_accs.update(
                idx as int,
                self.accounts@[idx as int],
            ));
            lemma_find_account_update(
                old_accs,
                idx as int,
                self.accounts@[idx as int],
                auth_pubkey@,
            );
            lemma_find_account(old_accs, auth_pubkey@);
            assert(seq_views(self.accounts@[idx as int].keys@) =~= seq_views(
                old_accs[idx as int].keys@,
            ).remove(key_at as int));
            assert forall|a: Seq<char>| #[trigger] self.accounts().contains(a) == old(
                self,
            ).accounts().contains(a) by {
                lemma_find_account_update(old_accs, idx as int, self.accounts@[idx as int], a);
            }
            assert(self.accounts() =~= old(self).accounts());
            assert forall|a: Seq<char>| a != auth_pubkey@ implies self.recipient_keys(a) == old(
                self,
            ).recipient_keys(a) by {
                lemma_find_account_update(old_accs, idx as int, self.accounts@[idx as int], a);
                lemma_find_account(old_accs, a);
            }
            assert forall|a: Seq<char>| self.device_record(a) == old(self).device_record(a) by {
                lemma_find_account_update(old_accs, idx as int, self.accounts@[idx as int], a);
                lemma_find_account(old_accs, a);
            }
        }
        Ok(())
    }

    fn retrieve_device_info(&mut self, auth_pubkey: &str) -> (r: Result<
        DeviceInfoRecord,
        StorageError,
    >) {
        let ghost op = StorageOp::RetrieveDeviceInfo { auth: auth_pubkey@ };
        let idx = match self.find_account(auth_pubkey) {
            Some(i) => i,
            None => {
                proof {
                    self.log@ = self.log@.push(StorageEvent { op, ok: false });
                }
                return Err(StorageError::NotFound);
            },
        };
        match &self.accounts[idx].device {
            Some(d) => {
                let out = DeviceInfoRecord {
                    token: clone_opt_string(&d.token),
                    platform: clone_opt_string(&d.platform),
                };
                proof {
                    self.log@ = self.log@.push(StorageEvent { op, ok: true });
                }
                Ok(out)
            },
            None => {
                proof {
                    self.log@ = self.log@.push(StorageEvent { op, ok: false });
                }
                Err(StorageError::NotFound)
            },
        }
    }

    fn set_device_info(
        &mut self,
        auth_pubkey: &str,
        token: &Option<String>,
        platform: &Option<String>,
    ) -> (r: Result<(), StorageError>) {
        let ghost op = StorageOp::SetDeviceInfo {
            auth: auth_pubkey@,
            token: token.deep_view(),
            platform: platform.deep_view(),
        };
        let idx = match self.find_account(auth_pubkey) {
            Some(i) => i,
            None => {
                proof {
                    self.log@ = self.log@.push(StorageEvent { op, ok: false });
                }
                return Err(StorageError::NotFound);
            },
        };
        let ghost old_accs = self.accounts@;
        let mut rec = self.accounts.remove(idx);
        rec.device = Some(
            DeviceInfoRecord {
                token: clone_opt_string(token),
                platform: clone_opt_string(platform),
            },
        );
        self.accounts.insert(idx, rec);
        proof {
            assert(self.accounts@ =~= old_accs.update(
                idx as int,
                self.accounts@[idx as int],
            ));
            lemma_find_account_update(
                old_accs,
                idx as int,
                self.accounts@[idx as int],
                auth_pubkey@,
            );
            self.log@ = self.log@.push(StorageEvent { op, ok: true });
            lemma_find_account(old_accs, auth_pubkey@);
            assert forall|a: Seq<char>| #[trigger] self.accounts().contains(a) == old(
                self,
            ).accounts().contains(a) by {
                lemma_find_account_update(old_accs, idx as int, self.accounts@[idx as int], a);
            }
            assert(self.accounts() =~= old(self).accounts());
            assert forall|a: Seq<char>| self.recipient_keys(a) == old(self).recipient_keys(a) by {
                lemma_find_account_update(old_accs, idx as int, self.accounts@[idx as int], a);
                lemma_find_account(old_accs, a);
            }
            assert forall|a: Seq<char>| a != auth_pubkey@ implies self.device_record(a) == old(
                self,
            ).device_record(a) by {
                lemma_find_account_update(old_accs, idx as int, self.accounts@[idx as int], a);
                lemma_find_account(old_accs, a);
            }
        }
        Ok(())
    }
}

/// Is the key among the stored ones?
fn contains_string(keys: &Vec<String>, key: &str) -> (r: bool)
    ensures
        r == seq_views(keys@).contains(key@),
{
    match index_of_string(keys, key) {
        Some(_) => true,
        None => false,
    }
}

/// First position of the key among the stored ones.
fn index_of_string(keys: &Vec<String>, key: &str) -> (r: Option<usize>)
    ensures
        r matches Some(i) ==> i < keys@.len() && seq_views(keys@)[i as int] == key@
            && seq_views(keys@).contains(key@) && spec_first_index(seq_views(keys@), key@)
            == i as int,
        r is None ==> !seq_views(keys@).contains(key@),
{
    let n = keys.len();
    let mut i: usize = 0;
    while i < n
        invariant
            i <= n,
            n == keys@.len(),
            forall|j: int| 0 <= j < i ==> seq_views(keys@)[j] != key@,
        decreases n - i,
    {
        if str_eq(keys[i].as_str(), key) {
            proof {
                assert(seq_views(keys@)[i as int] == key@);
                lemma_first_index_pin(seq_views(keys@), key@, i as int);
            }
            return Some(i);
        }
        i += 1;
    }
    proof {
        if seq_views(keys@).contains(key@) {
            let j = choose|j: int|
                0 <= j < seq_views(keys@).len() && seq_views(keys@)[j] == key@;
            assert(seq_views(keys@)[j] != key@);
        }
    }
    None
}

} // verus!
