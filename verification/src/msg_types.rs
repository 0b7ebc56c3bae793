//! Protocol message-type registry: parses and prints the fully qualified
//! message-type identifier `https://didcomm.org/<protocol>/<major>.<minor>/<kind>`,
//! resolving any minor version under a registered major to the closest
//! registered minor at or below it (here: the sole registered minor).

use vstd::prelude::*;

use crate::strings::{str_eq, str_starts_with};

verus! {

/// The push-notification protocol family, by registered major version.
#[derive(Clone, Copy, Debug, PartialEq, Eq, Structural)]
pub enum PushNotificationsFCMType {
    V1(PushNotificationsFCMTypeV1),
}

/// Major version 1 of the protocol, by registered minor version.
#[derive(Clone, Copy, Debug, PartialEq, Eq, Structural)]
pub enum PushNotificationsFCMTypeV1 {
    V1_0,
}

impl PushNotificationsFCMTypeV1 {
    pub fn new_v1_0() -> (r: Self)
        ensures
            r is V1_0,
    {
        PushNotificationsFCMTypeV1::V1_0
    }
}

/// The message kinds registered under version 1.0.
#[derive(Clone, Copy, Debug, PartialEq, Eq, Structural)]
pub enum PushNotificationsFCMTypeV1_0 {
    DeviceInfo,
    SetDeviceInfo,
    GetDeviceInfo,
    ReportProblem,
}

/// Why a wire message cannot be decoded. A structurally invalid message
/// cannot be answered in-band, so these are surfaced to the transport
/// layer as hard failures.
#[derive(Clone, Copy, Debug, PartialEq, Eq, Structural)]
pub enum DecodeError {
    /// The protocol name is not registered.
    UnknownProtocol,
    /// The kind tag is not registered under the resolved minor schema.
    UnknownKind,
    /// The declared major version is not registered.
    UnsupportedVersion,
    /// The type tag or the content fields are not shaped as the resolved
    /// schema demands.
    MalformedContent,
}

// ------------------------------------------------------------ character specs

pub open spec fn is_digit(c: char) -> bool {
    '0' <= c && c <= '9'
}

pub open spec fn all_digits(s: Seq<char>) -> bool {
    forall|i: int| 0 <= i < s.len() ==> is_digit(#[trigger] s[i])
}

/// Index of the first occurrence of `c` in `s`, or -1.
pub open spec fn find_first(s: Seq<char>, c: char) -> int
    decreases s.len(),
{
    if s.len() == 0 {
        -1
    } else if s[0] == c {
        0
    } else {
        let r = find_first(s.skip(1), c);
        if r == -1 {
            -1
        } else {
            r + 1
        }
    }
}

/// Index of the last occurrence of `c` in `s`, or -1.
pub open spec fn find_last(s: Seq<char>, c: char) -> int
    decreases s.len(),
{
    if s.len() == 0 {
        -1
    } else if s[s.len() - 1] == c {
        s.len() - 1
    } else {
        find_last(s.drop_last(), c)
    }
}

pub open spec fn strip_leading_zeros(s: Seq<char>) -> Seq<char>
    decreases s.len(),
{
    if s.len() > 0 && s[0] == '0' {
        strip_leading_zeros(s.skip(1))
    } else {
        s
    }
}

/// A digit string denotes the number one exactly when stripping its
/// leading zeros leaves the single character `1`.
pub open spec fn is_major_one(s: Seq<char>) -> bool {
    strip_leading_zeros(s) == seq!['1']
}

pub proof fn lemma_find_first(s: Seq<char>, c: char)
    ensures
        find_first(s, c) == -1 ==> forall|i: int| 0 <= i < s.len() ==> s[i] != c,
        find_first(s, c) != -1 ==> 0 <= find_first(s, c) < s.len() && s[find_first(s, c)] == c
            && forall|i: int| 0 <= i < find_first(s, c) ==> s[i] != c,
    decreases s.len(),
{
    if s.len() > 0 && s[0] != c {
        lemma_find_first(s.skip(1), c);
        let r = find_first(s.skip(1), c);
        if r == -1 {
            assert forall|i: int| 0 <= i < s.len() implies s[i] != c by {
                if i >= 1 {
                    assert(s[i] == s.skip(1)[i - 1]);
                }
            }
        } else {
            assert(s[r + 1] == s.skip(1)[r]);
            assert forall|i: int| 0 <= i < r + 1 implies s[i] != c by {
                if i >= 1 {
                    assert(s[i] == s.skip(1)[i - 1]);
                }
            }
        }
    }
}

pub proof fn lemma_find_last(s: Seq<char>, c: char)
    ensures
        find_last(s, c) == -1 ==> forall|i: int| 0 <= i < s.len() ==> s[i] != c,
        find_last(s, c) != -1 ==> 0 <= find_last(s, c) < s.len() && s[find_last(s, c)] == c
            && forall|i: int| find_last(s, c) < i < s.len() ==> s[i] != c,
    decreases s.len(),
{
    if s.len() > 0 && s[s.len() - 1] != c {
        lemma_find_last(s.drop_last(), c);
        let r = find_last(s.drop_last(), c);
        if r == -1 {
            assert forall|i: int| 0 <= i < s.len() implies s[i] != c by {
                if i < s.len() - 1 {
                    assert(s[i] == s.drop_last()[i]);
                }
            }
        } else {
            assert(s[r] == s.drop_last()[r]);
            assert forall|i: int| r < i < s.len() implies s[i] != c by {
                if i < s.len() - 1 {
                    assert(s[i] == s.drop_last()[i]);
                }
            }
        }
    }
}

pub proof fn lemma_strip_leading_zeros(s: Seq<char>, k: int)
    requires
        0 <= k <= s.len(),
        forall|j: int| 0 <= j < k ==> s[j] == '0',
        k < s.len() ==> s[k] != '0',
    ensures
        strip_leading_zeros(s) == s.skip(k),
    decreases k,
{
    if k == 0 {
        assert(s.skip(0) == s);
    } else {
        lemma_strip_leading_zeros(s.skip(1), k - 1);
        assert(s.skip(1).skip(k - 1) == s.skip(k));
    }
}

// -------------------------------------------------------------- parsing specs

/// The registered protocol identifier up to (and including) the slash
/// that precedes the version.
pub open spec fn spec_fcm_prefix() -> Seq<char> {
    "https://didcomm.org/push-notifications-fcm/"@
}

/// Split a `<major>.<minor>` version tag at its first dot; both sides
/// must be non-empty digit strings.
pub open spec fn spec_split_version(v: Seq<char>) -> Option<(Seq<char>, Seq<char>)> {
    let i = find_first(v, '.');
    if i >= 0 {
        let major = v.take(i);
        let minor = v.skip(i + 1);
        if major.len() > 0 && minor.len() > 0 && all_digits(major) && all_digits(minor) {
            Some((major, minor))
        } else {
            None
        }
    } else {
        None
    }
}

/// Resolve a protocol identifier string. Matching is exact on the
/// protocol name; an unregistered major version is a hard failure; any
/// minor version under major 1 resolves to the registered 1.0 schema.
pub open spec fn spec_parse_protocol(s: Seq<char>) -> Result<PushNotificationsFCMType, DecodeError> {
    if s.len() > spec_fcm_prefix().len() && s.take(spec_fcm_prefix().len() as int)
        == spec_fcm_prefix() {
        match spec_split_version(s.skip(spec_fcm_prefix().len() as int)) {
            Some((major, minor)) => {
                if is_major_one(major) {
                    Ok(PushNotificationsFCMType::V1(PushNotificationsFCMTypeV1::V1_0))
                } else {
                    Err(DecodeError::UnsupportedVersion)
                }
            },
            None => Err(DecodeError::MalformedContent),
        }
    } else {
        Err(DecodeError::UnknownProtocol)
    }
}

/// Split a fully qualified message-type string at its last slash into a
/// protocol identifier and a kind tag; the kind tag itself is not
/// validated here.
pub open spec fn spec_parse_message_type(s: Seq<char>) -> Result<
    (PushNotificationsFCMType, Seq<char>),
    DecodeError,
> {
    let i = find_last(s, '/');
    if i >= 0 {
        match spec_parse_protocol(s.take(i)) {
            Ok(p) => Ok((p, s.skip(i + 1))),
            Err(e) => Err(e),
        }
    } else {
        Err(DecodeError::UnknownProtocol)
    }
}

pub open spec fn spec_protocol_str() -> Seq<char> {
    "https://didcomm.org/push-notifications-fcm/1.0"@
}

pub open spec fn spec_kind_str(k: PushNotificationsFCMTypeV1_0) -> Seq<char> {
    match k {
        PushNotificationsFCMTypeV1_0::DeviceInfo => "device-info"@,
        PushNotificationsFCMTypeV1_0::SetDeviceInfo => "set-device-info"@,
        PushNotificationsFCMTypeV1_0::GetDeviceInfo => "get-device-info"@,
        PushNotificationsFCMTypeV1_0::ReportProblem => "report-problem"@,
    }
}

pub open spec fn spec_kind_from_str(s: Seq<char>) -> Result<
    PushNotificationsFCMTypeV1_0,
    DecodeError,
> {
    if s == "device-info"@ {
        Ok(PushNotificationsFCMTypeV1_0::DeviceInfo)
    } else if s == "set-device-info"@ {
        Ok(PushNotificationsFCMTypeV1_0::SetDeviceInfo)
    } else if s == "get-device-info"@ {
        Ok(PushNotificationsFCMTypeV1_0::GetDeviceInfo)
    } else if s == "report-problem"@ {
        Ok(PushNotificationsFCMTypeV1_0::ReportProblem)
    } else {
        Err(DecodeError::UnknownKind)
    }
}

/// The canonical type tag of a kind: protocol identifier, slash, kind.
pub open spec fn spec_msg_type_uri(k: PushNotificationsFCMTypeV1_0) -> Seq<char> {
    spec_protocol_str() + "/"@ + spec_kind_str(k)
}

// ---------------------------------------------------------------- exec search

fn find_first_char(s: &str, c: char) -> (r: Option<usize>)
    ensures
        r matches Some(i) ==> find_first(s@, c) == i as int && i < s@.len(),
        r is None ==> find_first(s@, c) == -1,
{
    let len = s.unicode_len();
    let mut i: usize = 0;
    while i < len
        invariant
            i <= len,
            len == s@.len(),
            forall|j: int| 0 <= j < i ==> s@[j] != c,
        decreases len - i,
    {
        if s.get_char(i) == c {
            proof {
                lemma_find_first(s@, c);
                let r0 = find_first(s@, c);
                if r0 != i as int {
                    if r0 == -1 {
                        assert(s@[i as int] != c);
                    } else if r0 < i as int {
                        assert(s@[r0] != c);
                    } else {
                        assert(s@[i as int] != c);
                    }
                }
            }
            return Some(i);
        }
        i += 1;
    }
    proof {
        lemma_find_first(s@, c);
        if find_first(s@, c) != -1 {
            assert(s@[find_first(s@, c)] != c);
        }
    }
    None
}

fn find_last_char(s: &str, c: char) -> (r: Option<usize>)
    ensures
        r matches Some(i) ==> find_last(s@, c) == i as int && i < s@.len(),
        r is None ==> find_last(s@, c) == -1,
{
    let len = s.unicode_len();
    let mut i: usize = len;
    while i > 0
        invariant
            i <= len,
            len == s@.len(),
            forall|j: int| i <= j < s@.len() ==> s@[j] != c,
        decreases i,
    {
        i -= 1;
        if s.get_char(i) == c {
            proof {
                lemma_find_last(s@, c);
                let r0 = find_last(s@, c);
                if r0 != i as int {
                    if r0 == -1 {
                        assert(s@[i as int] != c);
                    } else if r0 > i as int {
                        assert(s@[r0] != c);
                    } else {
                        assert(s@[i as int] != c);
                    }
                }
            }
            return Some(i);
        }
    }
    proof {
        lemma_find_last(s@, c);
        if find_last(s@, c) != -1 {
            assert(s@[find_last(s@, c)] != c);
        }
    }
    None
}

/// Is every character of `s` a decimal digit?
fn check_all_digits(s: &str) -> (r: bool)
    ensures
        r == all_digits(s@),
{
    let len = s.unicode_len();
    let mut i: usize = 0;
    while i < len
        invariant
            i <= len,
            len == s@.len(),
            forall|j: int| 0 <= j < i ==> is_digit(#[trigger] s@[j]),
        decreases len - i,
    {
        let ch = s.get_char(i);
        if !('0' <= ch && ch <= '9') {
            return false;
        }
        i += 1;
    }
    true
}

/// Does this digit string denote the number one?
fn check_major_one(s: &str) -> (r: bool)
    ensures
        r == is_major_one(s@),
{
    let len = s.unicode_len();
    let mut k: usize = 0;
    while k < len && s.get_char(k) == '0'
        invariant
            k <= len,
            len == s@.len(),
            forall|j: int| 0 <= j < k ==> s@[j] == '0',
        decreases len - k,
    {
        k += 1;
    }
    proof {
        lemma_strip_leading_zeros(s@, k as int);
    }
    if len - k == 1 && s.get_char(k) == '1' {
        proof {
            assert(s@.skip(k as int) =~= seq!['1']);
        }
        true
    } else {
        proof {
            if s@.skip(k as int) == seq!['1'] {
                assert(s@.skip(k as int).len() == 1);
                assert(s@.skip(k as int)[0] == '1');
                assert(s@[k as int] == '1');
            }
        }
        false
    }
}

// --------------------------------------------------------------- exec parsing

/// Resolve a protocol identifier string to a registered protocol type.
pub fn parse_protocol(s: &str) -> (r: Result<PushNotificationsFCMType, DecodeError>)
    ensures
        r == spec_parse_protocol(s@),
{
    let prefix = "https://didcomm.org/push-notifications-fcm/";
    let s_len = s.unicode_len();
    let p_len = prefix.unicode_len();
    if s_len <= p_len || !str_starts_with(s, prefix) {
        return Err(DecodeError::UnknownProtocol);
    }
    let version = s.substring_char(p_len, s_len);
    proof {
        assert(version@ =~= s@.skip(p_len as int));
    }
    let v_len = version.unicode_len();
    match find_first_char(version, '.') {
        Some(dot) => {
            let major = version.substring_char(0, dot);
            let minor = version.substring_char(dot + 1, v_len);
            proof {
                assert(major@ =~= version@.take(dot as int));
                assert(minor@ =~= version@.skip(dot as int + 1));
            }
            if major.unicode_len() == 0 || minor.unicode_len() == 0 || !check_all_digits(major)
                || !check_all_digits(minor) {
                return Err(DecodeError::MalformedContent);
            }
            if check_major_one(major) {
                Ok(PushNotificationsFCMType::V1(PushNotificationsFCMTypeV1::V1_0))
            } else {
                Err(DecodeError::UnsupportedVersion)
            }
        },
        None => Err(DecodeError::MalformedContent),
    }
}

/// Split a fully qualified message-type string into its protocol type and
/// its raw kind tag.
pub fn parse_message_type(s: &str) -> (r: Result<(PushNotificationsFCMType, String), DecodeError>)
    ensures
        r matches Ok((p, kind)) ==> spec_parse_message_type(s@) matches Ok(sp) && p == sp.0
            && kind@ == sp.1,
        r matches Err(e) ==> spec_parse_message_type(s@) matches Err(se) && e == se,
{
    let s_len = s.unicode_len();
    match find_last_char(s, '/') {
        Some(i) => {
            let protocol_part = s.substring_char(0, i);
            let kind_part = s.substring_char(i + 1, s_len);
            proof {
                assert(protocol_part@ =~= s@.take(i as int));
                assert(kind_part@ =~= s@.skip(i as int + 1));
            }
            match parse_protocol(protocol_part) {
                Ok(p) => Ok((p, kind_part.to_owned())),
                Err(e) => Err(e),
            }
        },
        None => Err(DecodeError::UnknownProtocol),
    }
}

/// The canonical identifier string of a registered protocol type.
pub fn protocol_as_str(t: PushNotificationsFCMType) -> (r: &'static str)
    ensures
        r@ == spec_protocol_str(),
{
    match t {
        PushNotificationsFCMType::V1(PushNotificationsFCMTypeV1::V1_0) => {
            "https://didcomm.org/push-notifications-fcm/1.0"
        },
    }
}

/// The canonical kind tag of a registered message kind.
pub fn kind_as_str(k: PushNotificationsFCMTypeV1_0) -> (r: &'static str)
    ensures
        r@ == spec_kind_str(k),
{
    match k {
        PushNotificationsFCMTypeV1_0::DeviceInfo => "device-info",
        PushNotificationsFCMTypeV1_0::SetDeviceInfo => "set-device-info",
        PushNotificationsFCMTypeV1_0::GetDeviceInfo => "get-device-info",
        PushNotificationsFCMTypeV1_0::ReportProblem => "report-problem",
    }
}

/// Resolve a raw kind tag against the registered kinds.
pub fn kind_from_str(s: &str) -> (r: Result<PushNotificationsFCMTypeV1_0, DecodeError>)
    ensures
        r == spec_kind_from_str(s@),
{
    if str_eq(s, "device-info") {
        Ok(PushNotificationsFCMTypeV1_0::DeviceInfo)
    } else if str_eq(s, "set-device-info") {
        Ok(PushNotificationsFCMTypeV1_0::SetDeviceInfo)
    } else if str_eq(s, "get-device-info") {
        Ok(PushNotificationsFCMTypeV1_0::GetDeviceInfo)
    } else if str_eq(s, "report-problem") {
        Ok(PushNotificationsFCMTypeV1_0::ReportProblem)
    } else {
        Err(DecodeError::UnknownKind)
    }
}

/// Build the canonical type tag of a message kind.
pub fn msg_type_uri(k: PushNotificationsFCMTypeV1_0) -> (r: String)
    ensures
        r@ == spec_msg_type_uri(k),
{
    let mut uri = protocol_as_str(
        PushNotificationsFCMType::V1(PushNotificationsFCMTypeV1::V1_0),
    ).to_owned();
    uri.append("/");
    uri.append(kind_as_str(k));
    uri
}

// --------------------------------------------------------------- the two laws

/// Any minor version declared under the registered major resolves to the
/// registered schema, exactly as minor 0 does.
pub proof fn lemma_version_tolerance(minor: Seq<char>)
    requires
        minor.len() > 0,
        all_digits(minor),
    ensures
        spec_parse_protocol("https://didcomm.org/push-notifications-fcm/1."@ + minor) == Ok::<
            PushNotificationsFCMType,
            DecodeError,
        >(PushNotificationsFCMType::V1(PushNotificationsFCMTypeV1::V1_0)),
{
    reveal_strlit("https://didcomm.org/push-notifications-fcm/1.");
    reveal_strlit("https://didcomm.org/push-notifications-fcm/");
    let s = "https://didcomm.org/push-notifications-fcm/1."@ + minor;
    assert(s.take(spec_fcm_prefix().len() as int) =~= spec_fcm_prefix());
    let v = s.skip(spec_fcm_prefix().len() as int);
    assert(v =~= seq!['1', '.'] + minor);
    assert(v[0] == '1' && v[1] == '.');
    lemma_find_first(v, '.');
    assert(is_digit('.') == false);
    assert(find_first(v, '.') == 1);
    let major = v.take(1);
    assert(major =~= seq!['1']);
    assert(v.skip(2) =~= minor);
    assert(strip_leading_zeros(major) == major);
}

/// The canonical type tag of every registered kind parses back to the
/// registered protocol and the same kind.
pub proof fn lemma_msg_type_uri_round_trip(k: PushNotificationsFCMTypeV1_0)
    ensures
        spec_parse_message_type(spec_msg_type_uri(k)) == Ok::<
            (PushNotificationsFCMType, Seq<char>),
            DecodeError,
        >((PushNotificationsFCMType::V1(PushNotificationsFCMTypeV1::V1_0), spec_kind_str(k))),
        spec_kind_from_str(spec_kind_str(k)) == Ok::<PushNotificationsFCMTypeV1_0, DecodeError>(k),
{
    reveal_strlit("https://didcomm.org/push-notifications-fcm/1.0");
    reveal_strlit("https://didcomm.org/push-notifications-fcm/");
    reveal_strlit("/");
    reveal_strlit("device-info");
    reveal_strlit("set-device-info");
    reveal_strlit("get-device-info");
    reveal_strlit("report-problem");
    let u = spec_msg_type_uri(k);
    let p = spec_protocol_str();
    let kind = spec_kind_str(k);
    assert(u[p.len() as int] == '/');
    assert(forall|i: int| 0 <= i < kind.len() ==> u[p.len() + 1 + i] == #[trigger] kind[i]);
    assert(forall|i: int| 0 <= i < kind.len() ==> kind[i] != '/');
    lemma_find_last(u, '/');
    assert(find_last(u, '/') == p.len() as int) by {
        let r = find_last(u, '/');
        assert(u[p.len() as int] == '/');
        if r < p.len() as int {
            assert(u[p.len() as int] != '/');
        } else if r > p.len() as int {
            assert(kind[r - p.len() - 1] != '/');
            assert(u[r] != '/');
        }
    }
    assert(u.take(p.len() as int) =~= p);
    assert(u.skip(p.len() as int + 1) =~= kind);
    // the protocol part itself resolves
    assert(p.take(spec_fcm_prefix().len() as int) =~= spec_fcm_prefix());
    let v = p.skip(spec_fcm_prefix().len() as int);
    assert(v =~= seq!['1', '.', '0']);
    lemma_find_first(v, '.');
    assert(find_first(v, '.') == 1);
    assert(v.take(1) =~= seq!['1']);
    assert(v.skip(2) =~= seq!['0']);
    assert(all_digits(seq!['1']));
    assert(all_digits(seq!['0']));
    assert(strip_leading_zeros(seq!['1']) == seq!['1']);
    // the kind tag resolves back to the same kind
    assert(spec_kind_from_str(spec_kind_str(k)) == Ok::<PushNotificationsFCMTypeV1_0, DecodeError>(
        k,
    )) by {
        match k {
            PushNotificationsFCMTypeV1_0::DeviceInfo => {},
            PushNotificationsFCMTypeV1_0::SetDeviceInfo => {
                assert("set-device-info"@ != "device-info"@) by {
                    assert("set-device-info"@.len() != "device-info"@.len());
                }
            },
            PushNotificationsFCMTypeV1_0::GetDeviceInfo => {
                assert("get-device-info"@ != "device-info"@) by {
                    assert("get-device-info"@.len() != "device-info"@.len());
                }
                assert("get-device-info"@ != "set-device-info"@) by {
                    assert("get-device-info"@[0] != "set-device-info"@[0]);
                }
            },
            PushNotificationsFCMTypeV1_0::ReportProblem => {
                assert("report-problem"@ != "device-info"@) by {
                    assert("report-problem"@.len() != "device-info"@.len());
                }
                assert("report-problem"@ != "set-device-info"@) by {
                    assert("report-problem"@.len() != "set-device-info"@.len());
                }
                assert("report-problem"@ != "get-device-info"@) by {
                    assert("report-problem"@.len() != "get-device-info"@.len());
                }
            },
        }
    }
}

} // verus!
