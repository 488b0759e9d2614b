//! The FileStation client: the requests it sends and how it reads the replies.
//!
//! The client performs no transfer itself. Each endpoint has a function that
//! gives the request to send, and the replies come back as an [`HttpOutcome`].

use vstd::prelude::*;
use vstd::string::*;

use crate::credential_manager::{Credential, CredentialView};
use crate::synology_api::query::{append_query, encoded_text, pairs_view, percent_encode, query_of};
use crate::synology_api::progress_reporter::ProgressReporter;
use crate::synology_api::responses::{
    Empty, LoginError, LoginResponse, SynologyError, SynologyErrorStatus, SynologyResult,
};
use crate::text::{
    bool_text, bool_to_str, clone_opt, decimal, join_path, joined_path, last_segment,
    last_segment_of, opt_view, str_eq, u64_to_string,
};

verus! {

/// The body of a response, as far as it could be read.
pub enum HttpBody<T> {
    /// The body was read and decoded.
    Decoded(T),
    /// The body could not be read to its end.
    Unreadable,
    /// The body was read and is not what was expected.
    Undecodable,
}

/// What became of one HTTP request.
pub enum HttpOutcome<T> {
    /// A response arrived.
    Response { status: u16, body: HttpBody<T> },
    /// The request failed; `status` is the HTTP status that the failure carried, if any.
    Failed { status: Option<u16> },
}

/// A session with one appliance.
#[derive(Clone, Debug)]
pub struct SynologyFileStation {
    sid: Option<String>,
    url: String,
}

/// A session as the characters it holds.
pub struct FileStationView {
    pub sid: Option<Seq<char>>,
    pub url: Seq<char>,
}

impl View for SynologyFileStation {
    type V = FileStationView;

    closed spec fn view(&self) -> FileStationView {
        FileStationView { sid: opt_view(self.sid), url: self.url@ }
    }
}

/// The address of a call to the entry point, without endpoint parameters.
pub open spec fn entry_url(
    base: Seq<char>,
    api: Seq<char>,
    version: u32,
    method: Seq<char>,
    sid: Seq<char>,
) -> Seq<char> {
    base + "/webapi/entry.cgi?api="@ + api + "&version="@ + decimal(version as nat) + "&method="@
        + method + "&_sid="@ + sid
}

/// What an envelope means: its error if it has one, else its result, else a failure.
pub open spec fn spec_parse<T, E>(
    data: Option<T>,
    error: Option<SynologyError<E>>,
) -> Result<T, SynologyErrorStatus> {
    match error {
        Some(e) => Err(SynologyErrorStatus::spec_from_code(e.code)),
        None => match data {
            Some(d) => Ok(d),
            None => Err(SynologyErrorStatus::MalformedResponse),
        },
    }
}

/// What an outcome yields before the envelope is looked into.
pub open spec fn spec_parse_data_and_error<T, E>(outcome: HttpOutcome<SynologyResult<T, E>>) -> Result<
    (Option<T>, Option<SynologyError<E>>),
    SynologyErrorStatus,
> {
    match outcome {
        HttpOutcome::Response { status, body } => if 200 <= status < 300 {
            match body {
                HttpBody::Decoded(envelope) => Ok((envelope.data, envelope.error)),
                HttpBody::Unreadable => Err(SynologyErrorStatus::TransportError),
                HttpBody::Undecodable => Err(SynologyErrorStatus::DecodeError),
            }
        } else {
            Err(SynologyErrorStatus::HttpError(status))
        },
        HttpOutcome::Failed { status: Some(status) } => Err(SynologyErrorStatus::HttpError(status)),
        HttpOutcome::Failed { status: None } => Err(SynologyErrorStatus::TransportError),
    }
}

/// What an outcome means for an endpoint that returns `T`.
pub open spec fn spec_parse_outcome<T, E>(outcome: HttpOutcome<SynologyResult<T, E>>) -> Result<
    T,
    SynologyErrorStatus,
> {
    match spec_parse_data_and_error(outcome) {
        Ok((data, error)) => spec_parse(data, error),
        Err(e) => Err(e),
    }
}

impl SynologyFileStation {
    /// A client for the appliance at `url`, not logged in.
    pub fn new(url: &str) -> (r: SynologyFileStation)
        ensures
            r@ == (FileStationView { sid: None, url: url@ }),
    {
        SynologyFileStation { sid: None, url: url.to_string() }
    }

    /// Whether a login has succeeded on this client.
    pub fn is_logged_in(&self) -> (r: bool)
        ensures
            r == self@.sid.is_some(),
    {
        self.sid.is_some()
    }

    /// The session identifier, once logged in.
    pub fn session_id(&self) -> (r: Option<String>)
        ensures
            opt_view(r) == self@.sid,
    {
        clone_opt(&self.sid)
    }

    /// The address of the appliance.
    pub fn base_url(&self) -> (r: String)
        ensures
            r@ == self@.url,
    {
        self.url.clone()
    }

    /// The address to GET for a call of `method` of `api`: the entry point with
    /// `api`, `version`, `method` and `_sid`, then the parameters in order,
    /// percent-encoded. Without a session there is no such address.
    pub fn get(&self, api: &str, method: &str, version: u32, parameters: &Vec<(String, String)>) -> (r:
        Result<String, SynologyErrorStatus>)
        ensures
            match r {
                Ok(url) => self@.sid matches Some(sid) && url@ == entry_url(
                    self@.url,
                    api@,
                    version,
                    method@,
                    sid,
                ) + query_of(pairs_view(parameters@)),
                Err(e) => self@.sid is None && e == SynologyErrorStatus::NotLoggedIn,
            },
    {
        match &self.sid {
            Some(sid) => {
                let mut url = self.url.clone();
                url.append("/webapi/entry.cgi?api=");
                url.append(api);
                url.append("&version=");
                url.append(u64_to_string(version as u64).as_str());
                url.append("&method=");
                url.append(method);
                url.append("&_sid=");
                url.append(sid.as_str());
                Ok(append_query(url, parameters))
            },
            None => Err(SynologyErrorStatus::NotLoggedIn),
        }
    }

    /// Reads an outcome as far as the envelope: a status outside 2xx is an
    /// HTTP error, a failure without status or an unreadable body a transport
    /// error, a body that is no envelope a decode error.
    pub fn parse_data_and_error<TData, TError>(
        outcome: HttpOutcome<SynologyResult<TData, TError>>,
    ) -> (r: Result<(Option<TData>, Option<SynologyError<TError>>), SynologyErrorStatus>)
        ensures
            r == spec_parse_data_and_error(outcome),
    {
        match outcome {
            HttpOutcome::Response { status, body } => {
                if 200 <= status && status < 300 {
                    match body {
                        HttpBody::Decoded(envelope) => Ok((envelope.data, envelope.error)),
                        HttpBody::Unreadable => Err(SynologyErrorStatus::TransportError),
                        HttpBody::Undecodable => Err(SynologyErrorStatus::DecodeError),
                    }
                } else {
                    Err(SynologyErrorStatus::HttpError(status))
                }
            },
            HttpOutcome::Failed { status } => match status {
                Some(status) => Err(SynologyErrorStatus::HttpError(status)),
                None => Err(SynologyErrorStatus::TransportError),
            },
        }
    }

    /// Reads an outcome to the result of the endpoint. An error in the
    /// envelope wins over a result; an envelope with neither is malformed.
    pub fn parse<T, E>(outcome: HttpOutcome<SynologyResult<T, E>>) -> (r: Result<T, SynologyErrorStatus>)
        ensures
            r == spec_parse_outcome(outcome),
    {
        match Self::parse_data_and_error(outcome) {
            Ok((data, error)) => match error {
                Some(e) => Err(SynologyErrorStatus::from_code(e.code)),
                None => match data {
                    Some(d) => Ok(d),
                    None => Err(SynologyErrorStatus::MalformedResponse),
                },
            },
            Err(e) => Err(e),
        }
    }
}

/// The parameter that an optional value adds to a request: one, or none.
pub open spec fn opt_param(key: Seq<char>, value: Option<Seq<char>>) -> Seq<(Seq<char>, Seq<char>)> {
    match value {
        Some(v) => seq![(key, v)],
        None => Seq::empty(),
    }
}

/// An optional number as its decimal numeral.
pub open spec fn opt_decimal(n: Option<u64>) -> Option<Seq<char>> {
    match n {
        Some(n) => Some(decimal(n as nat)),
        None => None,
    }
}

/// An optional flag as `true` or `false`.
pub open spec fn opt_bool_text(b: Option<bool>) -> Option<Seq<char>> {
    match b {
        Some(b) => Some(bool_text(b)),
        None => None,
    }
}

/// A comma-separated list after one more name was offered: it takes the name
/// if `on` holds, with a comma before it unless it is the first.
pub open spec fn join_flag(list: Seq<char>, on: bool, name: Seq<char>) -> Seq<char> {
    if !on {
        list
    } else if list.len() == 0 {
        name
    } else {
        list + seq![','] + name
    }
}

/// The value of `additional`, if any detail was asked for.
pub open spec fn additional_value(list: Seq<char>) -> Option<Seq<char>> {
    if list.len() == 0 {
        None
    } else {
        Some(list)
    }
}

/// The details that a listing of a folder can ask for, comma-separated in this order.
pub open spec fn list_additional(
    real_path: bool,
    size: bool,
    owner: bool,
    time: bool,
    perm: bool,
    mount_point_type: bool,
    file_type: bool,
) -> Seq<char> {
    join_flag(
        join_flag(
            join_flag(
                join_flag(
                    join_flag(
                        join_flag(join_flag(Seq::empty(), real_path, "real_path"@), size, "size"@),
                        owner,
                        "owner"@,
                    ),
                    time,
                    "time"@,
                ),
                perm,
                "perm"@,
            ),
            mount_point_type,
            "mount_point_type"@,
        ),
        file_type,
        "type"@,
    )
}

/// The details that a listing of shares can ask for, comma-separated in this order.
pub open spec fn list_share_additional(
    real_path: bool,
    size: bool,
    owner: bool,
    time: bool,
    perm: bool,
    mount_point_type: bool,
    volume_status: bool,
) -> Seq<char> {
    join_flag(
        join_flag(
            join_flag(
                join_flag(
                    join_flag(
                        join_flag(join_flag(Seq::empty(), real_path, "real_path"@), size, "size"@),
                        owner,
                        "owner"@,
                    ),
                    time,
                    "time"@,
                ),
                perm,
                "perm"@,
            ),
            mount_point_type,
            "mount_point_type"@,
        ),
        volume_status,
        "volume_status"@,
    )
}

/// The parameters of a request to create a folder.
pub open spec fn create_folder_params(folder_path: Seq<char>, name: Seq<char>, force_parent: bool) -> Seq<
    (Seq<char>, Seq<char>),
> {
    seq![
        ("folder_path"@, folder_path),
        ("name"@, name),
        ("force_parent"@, bool_text(force_parent)),
    ]
}

fn push_param(params: &mut Vec<(String, String)>, key: &str, value: String)
    ensures
        pairs_view(final(params)@) == pairs_view(old(params)@).push((key@, value@)),
{
    params.push((key.to_string(), value));
    assert(pairs_view(params@) =~= pairs_view(old(params)@).push((key@, value@)));
}

fn push_opt(params: &mut Vec<(String, String)>, key: &str, value: Option<String>)
    ensures
        pairs_view(final(params)@) == pairs_view(old(params)@) + opt_param(key@, opt_view(value)),
{
    match value {
        Some(v) => {
            push_param(params, key, v);
            assert(pairs_view(params@) =~= pairs_view(old(params)@) + opt_param(
                key@,
                opt_view(value),
            ));
        },
        None => {
            assert(pairs_view(params@) =~= pairs_view(old(params)@) + opt_param(
                key@,
                opt_view(value),
            ));
        },
    }
}

fn opt_u64_to_string(n: Option<u64>) -> (r: Option<String>)
    ensures
        opt_view(r) == opt_decimal(n),
{
    match n {
        Some(n) => Some(u64_to_string(n)),
        None => None,
    }
}

fn opt_bool_to_string(b: Option<bool>) -> (r: Option<String>)
    ensures
        opt_view(r) == opt_bool_text(b),
{
    match b {
        Some(b) => Some(bool_to_str(b).to_string()),
        None => None,
    }
}

fn add_flag(list: String, on: bool, name: &str) -> (r: String)
    ensures
        r@ == join_flag(list@, on, name@),
{
    if !on {
        list
    } else if list.as_str().unicode_len() == 0 {
        assert(list@ + name@ =~= name@);
        list.concat(name)
    } else {
        proof {
            reveal_strlit(",");
            assert(","@ =~= seq![',']);
        }
        list.concat(",").concat(name)
    }
}

fn additional_to_option(list: String) -> (r: Option<String>)
    ensures
        opt_view(r) == additional_value(list@),
{
    if list.as_str().unicode_len() == 0 {
        None
    } else {
        Some(list)
    }
}

/// The parameters of a request to list a folder.
pub open spec fn list_params(
    folder_path: Seq<char>,
    offset: Option<u64>,
    limit: Option<u64>,
    sort_by: Option<Seq<char>>,
    sort_direction: Option<Seq<char>>,
    pattern: Option<Seq<char>>,
    file_type: Option<Seq<char>>,
    goto_path: Option<Seq<char>>,
    additional: Seq<char>,
) -> Seq<(Seq<char>, Seq<char>)> {
    seq![("folder_path"@, folder_path)] + opt_param("offset"@, opt_decimal(offset)) + opt_param(
        "limit"@,
        opt_decimal(limit),
    ) + opt_param("sort_by"@, sort_by) + opt_param("sort_direction"@, sort_direction) + opt_param(
        "pattern"@,
        pattern,
    ) + opt_param("filetype"@, file_type) + opt_param("goto_path"@, goto_path) + opt_param(
        "additional"@,
        additional_value(additional),
    )
}

/// The parameters of a request to list the shares.
pub open spec fn list_share_params(
    offset: Option<u64>,
    limit: Option<u64>,
    sort_by: Option<Seq<char>>,
    sort_direction: Option<Seq<char>>,
    only_writable: Option<bool>,
    additional: Seq<char>,
) -> Seq<(Seq<char>, Seq<char>)> {
    opt_param("offset"@, opt_decimal(offset)) + opt_param("limit"@, opt_decimal(limit)) + opt_param(
        "sort_by"@,
        sort_by,
    ) + opt_param("sort_direction"@, sort_direction) + opt_param(
        "only_writable"@,
        opt_bool_text(only_writable),
    ) + opt_param("additional"@, additional_value(additional))
}

/// What a call that needs a session gives: the address to GET, or the refusal.
pub open spec fn spec_request(
    station: FileStationView,
    api: Seq<char>,
    version: u32,
    method: Seq<char>,
    params: Seq<(Seq<char>, Seq<char>)>,
) -> Result<Seq<char>, SynologyErrorStatus> {
    match station.sid {
        Some(sid) => Ok(entry_url(station.url, api, version, method, sid) + query_of(params)),
        None => Err(SynologyErrorStatus::NotLoggedIn),
    }
}

/// A result whose success is a string, as characters.
pub open spec fn result_view(r: Result<String, SynologyErrorStatus>) -> Result<
    Seq<char>,
    SynologyErrorStatus,
> {
    match r {
        Ok(s) => Ok(s@),
        Err(e) => Err(e),
    }
}

impl SynologyFileStation {
    /// The address to GET to create the folder `name` below `folder_path`.
    pub fn create_folder(&self, folder_path: &str, name: &str, force_parent: bool) -> (r: Result<
        String,
        SynologyErrorStatus,
    >)
        ensures
            result_view(r) == spec_request(
                self@,
                "SYNO.FileStation.CreateFolder"@,
                2,
                "create"@,
                create_folder_params(folder_path@, name@, force_parent),
            ),
    {
        let mut parameters: Vec<(String, String)> = Vec::new();
        assert(pairs_view(parameters@) =~= Seq::empty());
        push_param(&mut parameters, "folder_path", folder_path.to_string());
        push_param(&mut parameters, "name", name.to_string());
        push_param(&mut parameters, "force_parent", bool_to_str(force_parent).to_string());
        assert(pairs_view(parameters@) =~= create_folder_params(folder_path@, name@, force_parent));
        self.get("SYNO.FileStation.CreateFolder", "create", 2, &parameters)
    }

    /// The address to GET to list the folder `folder_path`. Each option that
    /// is given adds its parameter; the details asked for go into `additional`.
    pub fn list(
        &self,
        folder_path: &str,
        offset: Option<u64>,
        limit: Option<u64>,
        sort_by: Option<String>,
        sort_direction: Option<String>,
        pattern: Option<String>,
        file_type: Option<String>,
        goto_path: Option<String>,
        include_real_path: bool,
        include_size: bool,
        include_owner: bool,
        include_time: bool,
        include_perm: bool,
        include_mount_point_type: bool,
        include_type: bool,
    ) -> (r: Result<String, SynologyErrorStatus>)
        ensures
            result_view(r) == spec_request(
                self@,
                "SYNO.FileStation.List"@,
                2,
                "list"@,
                list_params(
                    folder_path@,
                    offset,
                    limit,
                    opt_view(sort_by),
                    opt_view(sort_direction),
                    opt_view(pattern),
                    opt_view(file_type),
                    opt_view(goto_path),
                    list_additional(
                        include_real_path,
                        include_size,
                        include_owner,
                        include_time,
                        include_perm,
                        include_mount_point_type,
                        include_type,
                    ),
                ),
            ),
    {
        let mut parameters: Vec<(String, String)> = Vec::new();
        assert(pairs_view(parameters@) =~= Seq::empty());
        push_param(&mut parameters, "folder_path", folder_path.to_string());
        push_opt(&mut parameters, "offset", opt_u64_to_string(offset));
        push_opt(&mut parameters, "limit", opt_u64_to_string(limit));
        push_opt(&mut parameters, "sort_by", sort_by);
        push_opt(&mut parameters, "sort_direction", sort_direction);
        push_opt(&mut parameters, "pattern", pattern);
        push_opt(&mut parameters, "filetype", file_type);
        push_opt(&mut parameters, "goto_path", goto_path);

        let additional = String::new();
        let additional = add_flag(additional, include_real_path, "real_path");
        let additional = add_flag(additional, include_size, "size");
        let additional = add_flag(additional, include_owner, "owner");
        let additional = add_flag(additional, include_time, "time");
        let additional = add_flag(additional, include_perm, "perm");
        let additional = add_flag(additional, include_mount_point_type, "mount_point_type");
        let additional = add_flag(additional, include_type, "type");
        push_opt(&mut parameters, "additional", additional_to_option(additional));
        assert(pairs_view(parameters@) =~= list_params(
            folder_path@,
            offset,
            limit,
            opt_view(sort_by),
            opt_view(sort_direction),
            opt_view(pattern),
            opt_view(file_type),
            opt_view(goto_path),
            list_additional(
                include_real_path,
                include_size,
                include_owner,
                include_time,
                include_perm,
                include_mount_point_type,
                include_type,
            ),
        ));
        self.get("SYNO.FileStation.List", "list", 2, &parameters)
    }

    /// The address to GET to list the shares.
    pub fn list_share(
        &self,
        offset: Option<u64>,
        limit: Option<u64>,
        sort_by: Option<String>,
        sort_direction: Option<String>,
        only_writable: Option<bool>,
        include_real_path: bool,
        include_size: bool,
        include_owner: bool,
        include_time: bool,
        include_perm: bool,
        include_mount_point_type: bool,
        include_volume_status: bool,
    ) -> (r: Result<String, SynologyErrorStatus>)
        ensures
            result_view(r) == spec_request(
                self@,
                "SYNO.FileStation.List"@,
                2,
                "list_share"@,
                list_share_params(
                    offset,
                    limit,
                    opt_view(sort_by),
                    opt_view(sort_direction),
                    only_writable,
                    list_share_additional(
                        include_real_path,
                        include_size,
                        include_owner,
                        include_time,
                        include_perm,
                        include_mount_point_type,
                        include_volume_status,
                    ),
                ),
            ),
    {
        let mut parameters: Vec<(String, String)> = Vec::new();
        assert(pairs_view(parameters@) =~= Seq::empty());
        push_opt(&mut parameters, "offset", opt_u64_to_string(offset));
        push_opt(&mut parameters, "limit", opt_u64_to_string(limit));
        push_opt(&mut parameters, "sort_by", sort_by);
        push_opt(&mut parameters, "sort_direction", sort_direction);
        push_opt(&mut parameters, "only_writable", opt_bool_to_string(only_writable));

        let additional = String::new();
        let additional = add_flag(additional, include_real_path, "real_path");
        let additional = add_flag(additional, include_size, "size");
        let additional = add_flag(additional, include_owner, "owner");
        let additional = add_flag(additional, include_time, "time");
        let additional = add_flag(additional, include_perm, "perm");
        let additional = add_flag(additional, include_mount_point_type, "mount_point_type");
        let additional = add_flag(additional, include_volume_status, "volume_status");
        push_opt(&mut parameters, "additional", additional_to_option(additional));
        assert(pairs_view(parameters@) =~= list_share_params(
            offset,
            limit,
            opt_view(sort_by),
            opt_view(sort_direction),
            only_writable,
            list_share_additional(
                include_real_path,
                include_size,
                include_owner,
                include_time,
                include_perm,
                include_mount_point_type,
                include_volume_status,
            ),
        ));
        self.get("SYNO.FileStation.List", "list_share", 2, &parameters)
    }
}

/// The name under which this client registers with the appliance: the
/// host's name, `::` and the client's tag.
pub open spec fn device_name(hostname: Seq<char>) -> Seq<char> {
    hostname + "::rust_synology_api"@
}

/// What an optional value adds to an address: the prefix and the value, or nothing.
pub open spec fn opt_suffix(prefix: Seq<char>, value: Option<Seq<char>>) -> Seq<char> {
    match value {
        Some(v) => prefix + v,
        None => Seq::empty(),
    }
}

/// The address of a login. Account and password are percent-encoded; the
/// device token and the one-time code follow only where they are given.
pub open spec fn login_url(
    base: Seq<char>,
    credential: CredentialView,
    enable_device_token: bool,
    totp: Option<Seq<char>>,
    hostname: Seq<char>,
) -> Seq<char> {
    base + "/webapi/entry.cgi?api=SYNO.API.Auth&version=6&method=login&account="@ + encoded_text(
        credential.user,
    ) + "&passwd="@ + encoded_text(credential.password) + "&enable_device_token="@ + bool_text(
        enable_device_token,
    ) + "&device_name="@ + device_name(hostname) + "&session=FileStation&format=sid"@ + opt_suffix(
        "&device_id="@,
        credential.device_id,
    ) + opt_suffix("&otp_code="@, totp)
}

/// Whether one object of a refused login's detail names the one-time code.
pub open spec fn entry_is_otp(entry: Seq<(String, String)>) -> bool {
    exists|i: int| 0 <= i < entry.len() && (#[trigger] entry[i]).0@ == "type"@ && entry[i].1@ == "otp"@
}

/// Whether the detail of a refused login asks for a one-time code.
pub open spec fn asks_for_otp(types: Seq<Vec<(String, String)>>) -> bool {
    exists|i: int| 0 <= i < types.len() && entry_is_otp((#[trigger] types[i])@)
}

/// The failure that the error of a login's envelope stands for: a refused
/// user whose detail asks for a one-time code is `NoTotp`, every other error
/// is what its code says.
pub open spec fn login_failure(error: SynologyError<LoginError>) -> SynologyErrorStatus {
    match error.errors {
        Some(detail) if error.code == 403 && asks_for_otp(detail.types@) => SynologyErrorStatus::NoTotp,
        _ => SynologyErrorStatus::spec_from_code(error.code),
    }
}

/// What the reply to a login means.
pub open spec fn spec_login(outcome: HttpOutcome<SynologyResult<LoginResponse, LoginError>>) -> Result<
    LoginResponse,
    SynologyErrorStatus,
> {
    match spec_parse_data_and_error(outcome) {
        Ok((data, error)) => match error {
            Some(e) => Err(login_failure(e)),
            None => match data {
                Some(d) => Ok(d),
                None => Err(SynologyErrorStatus::MalformedResponse),
            },
        },
        Err(e) => Err(e),
    }
}

/// The credential that a successful login returns: the one that was used,
/// without one-time code, with the device token that the appliance issued or,
/// where it issued none, the one that was presented.
pub open spec fn credential_after_login(
    credential: CredentialView,
    response: LoginResponse,
) -> CredentialView {
    CredentialView {
        user: credential.user,
        password: credential.password,
        totp: None,
        device_id: match response.did {
            Some(did) => Some(did@),
            None => credential.device_id,
        },
    }
}

/// What `login_response` leaves and gives: on success the session of the
/// reply and the credential to keep, on failure the client as it was and
/// the failure.
pub open spec fn login_response_post(
    credential: CredentialView,
    outcome: HttpOutcome<SynologyResult<LoginResponse, LoginError>>,
    before: FileStationView,
    after: FileStationView,
    r: Result<Credential, SynologyErrorStatus>,
) -> bool {
    match spec_login(outcome) {
        Ok(response) => r matches Ok(kept) && kept@ == credential_after_login(credential, response)
            && after == (FileStationView { sid: Some(response.sid@), url: before.url }),
        Err(e) => r matches Err(failure) && failure == e && after == before,
    }
}

fn entry_names_otp(entry: &Vec<(String, String)>) -> (r: bool)
    ensures
        r == entry_is_otp(entry@),
{
    let mut i: usize = 0;
    while i < entry.len()
        invariant
            i <= entry.len(),
            forall|j: int| 0 <= j < i ==> !((#[trigger] entry@[j]).0@ == "type"@ && entry@[j].1@ == "otp"@),
        decreases entry.len() - i,
    {
        if str_eq(entry[i].0.as_str(), "type") && str_eq(entry[i].1.as_str(), "otp") {
            return true;
        }
        i = i + 1;
    }
    false
}

fn detail_asks_for_otp(types: &Vec<Vec<(String, String)>>) -> (r: bool)
    ensures
        r == asks_for_otp(types@),
{
    let mut i: usize = 0;
    while i < types.len()
        invariant
            i <= types.len(),
            forall|j: int| 0 <= j < i ==> !entry_is_otp((#[trigger] types@[j])@),
        decreases types.len() - i,
    {
        if entry_names_otp(&types[i]) {
            return true;
        }
        i = i + 1;
    }
    false
}

fn failure_of_login(error: &SynologyError<LoginError>) -> (r: SynologyErrorStatus)
    ensures
        r == login_failure(*error),
{
    if error.code == 403 {
        match &error.errors {
            Some(detail) => {
                if detail_asks_for_otp(&detail.types) {
                    return SynologyErrorStatus::NoTotp;
                }
            },
            None => {},
        }
    }
    SynologyErrorStatus::from_code(error.code)
}

impl SynologyFileStation {
    /// The address to GET to log in. `hostname` is the name of this host.
    pub fn login(
        &self,
        credential: &Credential,
        enable_device_token: bool,
        totp: Option<String>,
        hostname: &str,
    ) -> (r: String)
        ensures
            r@ == login_url(self@.url, credential@, enable_device_token, opt_view(totp), hostname@),
    {
        let mut url = self.url.clone();
        url.append("/webapi/entry.cgi?api=SYNO.API.Auth&version=6&method=login&account=");
        url.append(percent_encode(credential.user.as_str()).as_str());
        url.append("&passwd=");
        url.append(percent_encode(credential.password.as_str()).as_str());
        url.append("&enable_device_token=");
        url.append(bool_to_str(enable_device_token));
        url.append("&device_name=");
        url.append(hostname);
        url.append("::rust_synology_api");
        url.append("&session=FileStation&format=sid");
        let ghost head = url@;
        match &credential.device_id {
            Some(did) => {
                url.append("&device_id=");
                url.append(did.as_str());
            },
            None => {},
        }
        assert(url@ =~= head + opt_suffix("&device_id="@, credential@.device_id));
        let ghost middle = url@;
        match &totp {
            Some(code) => {
                url.append("&otp_code=");
                url.append(code.as_str());
            },
            None => {},
        }
        assert(url@ =~= middle + opt_suffix("&otp_code="@, opt_view(totp)));
        assert(url@ =~= login_url(
            self@.url,
            credential@,
            enable_device_token,
            opt_view(totp),
            hostname@,
        ));
        url
    }

    /// Takes the reply to a login. On success the client holds the session
    /// and the credential to keep comes back; on failure the client is as
    /// before and the failure says why, `NoTotp` where a one-time code is
    /// asked for.
    pub fn login_response(
        &mut self,
        credential: &Credential,
        outcome: HttpOutcome<SynologyResult<LoginResponse, LoginError>>,
    ) -> (r: Result<Credential, SynologyErrorStatus>)
        ensures
            login_response_post(credential@, outcome, old(self)@, final(self)@, r),
    {
        let (data, error) = match Self::parse_data_and_error(outcome) {
            Ok(pair) => pair,
            Err(e) => {
                return Err(e);
            },
        };
        match error {
            Some(e) => {
                return Err(failure_of_login(&e));
            },
            None => {},
        }
        match data {
            Some(response) => {
                let device_id = match response.did {
                    Some(did) => Some(did),
                    None => clone_opt(&credential.device_id),
                };
                self.sid = Some(response.sid);
                Ok(
                    Credential {
                        user: credential.user.clone(),
                        password: credential.password.clone(),
                        totp: None,
                        device_id,
                    },
                )
            },
            None => Err(SynologyErrorStatus::MalformedResponse),
        }
    }
}

/// What to send to upload one file: a multipart POST to `url` with the text
/// fields in order and then the file's bytes as the part `file_field`, under
/// the name `file_name` and with the content type given.
#[derive(Debug)]
pub struct UploadRequest {
    pub url: String,
    pub fields: Vec<(String, String)>,
    pub file_field: String,
    pub file_name: String,
    pub content_type: String,
}

/// An upload request as the characters it holds.
pub struct UploadRequestView {
    pub url: Seq<char>,
    pub fields: Seq<(Seq<char>, Seq<char>)>,
    pub file_field: Seq<char>,
    pub file_name: Seq<char>,
    pub content_type: Seq<char>,
}

impl View for UploadRequest {
    type V = UploadRequestView;

    open spec fn view(&self) -> UploadRequestView {
        UploadRequestView {
            url: self.url@,
            fields: pairs_view(self.fields@),
            file_field: self.file_field@,
            file_name: self.file_name@,
            content_type: self.content_type@,
        }
    }
}

/// What to fetch to download one file, and the local path to write it to.
#[derive(Debug)]
pub struct DownloadRequest {
    pub url: String,
    pub target_file_path: String,
}

/// Whether a last segment can name a file: it is not empty and not `..`.
pub open spec fn is_file_name(name: Seq<char>) -> bool {
    name.len() > 0 && name != ".."@
}

/// The text fields of an upload, in order.
pub open spec fn upload_fields(
    target_directory_path: Seq<char>,
    create_parents: bool,
    overwrite: bool,
    mtime: Option<u64>,
    crtime: Option<u64>,
    atime: Option<u64>,
) -> Seq<(Seq<char>, Seq<char>)> {
    seq![
        ("path"@, target_directory_path),
        ("create_parents"@, bool_text(create_parents)),
        ("overwrite"@, bool_text(overwrite)),
    ] + opt_param("mtime"@, opt_decimal(mtime)) + opt_param("crtime"@, opt_decimal(crtime))
        + opt_param("atime"@, opt_decimal(atime))
}

/// The upload of the file at `source_file_path`, or why there is none: no
/// session, or a path whose last segment names no file.
pub open spec fn spec_upload(
    station: FileStationView,
    source_file_path: Seq<char>,
    target_directory_path: Seq<char>,
    create_parents: bool,
    overwrite: bool,
    mtime: Option<u64>,
    crtime: Option<u64>,
    atime: Option<u64>,
) -> Result<UploadRequestView, SynologyErrorStatus> {
    match station.sid {
        None => Err(SynologyErrorStatus::NotLoggedIn),
        Some(sid) => if is_file_name(last_segment(source_file_path)) {
            Ok(
                UploadRequestView {
                    url: entry_url(station.url, "SYNO.FileStation.Upload"@, 2, "upload"@, sid),
                    fields: upload_fields(
                        target_directory_path,
                        create_parents,
                        overwrite,
                        mtime,
                        crtime,
                        atime,
                    ),
                    file_field: "files"@,
                    file_name: last_segment(source_file_path),
                    content_type: "application/octet-stream"@,
                },
            )
        } else {
            Err(SynologyErrorStatus::UnknownError)
        },
    }
}

/// The parameters of a download.
pub open spec fn download_params(source_file_path: Seq<char>) -> Seq<(Seq<char>, Seq<char>)> {
    seq![("path"@, source_file_path), ("mode"@, "download"@)]
}

/// The download of `source_file_path` into `target_directory_path`, as the
/// address and the local path, or why there is none.
pub open spec fn spec_download(
    station: FileStationView,
    source_file_path: Seq<char>,
    target_directory_path: Seq<char>,
) -> Result<(Seq<char>, Seq<char>), SynologyErrorStatus> {
    match station.sid {
        None => Err(SynologyErrorStatus::NotLoggedIn),
        Some(sid) => if is_file_name(last_segment(source_file_path)) {
            Ok(
                (
                    entry_url(station.url, "SYNO.FileStation.Download"@, 2, "download"@, sid)
                        + query_of(download_params(source_file_path)),
                    joined_path(target_directory_path, last_segment(source_file_path)),
                ),
            )
        } else {
            Err(SynologyErrorStatus::UnknownError)
        },
    }
}

/// Whether a sink, if there is one, took exactly the report `bytes`
/// between `before` and `after`, as far as the sink keeps track.
pub open spec fn took_report<P: ProgressReporter>(before: Option<P>, after: Option<P>, bytes: usize) -> bool {
    match (before, after) {
        (Some(b), Some(a)) => a.reported() == match b.reported() {
            Some(log) => Some(log.push(bytes)),
            None => None,
        },
        (None, None) => true,
        _ => false,
    }
}

/// The number of bytes that a length stands for on this machine: the length,
/// or the largest number there is where it is larger.
pub open spec fn clamp_len(length: u64) -> usize {
    if length <= usize::MAX {
        length as usize
    } else {
        usize::MAX
    }
}

fn is_file_name_text(name: &str) -> (r: bool)
    ensures
        r == is_file_name(name@),
{
    name.unicode_len() > 0 && !str_eq(name, "..")
}

/// Hands one report to the sink, if there is one. A report that the sink
/// could not deliver does not stop the transfer.
pub fn report<P: ProgressReporter>(progress_reporter: &mut Option<P>, bytes: usize)
    ensures
        took_report(*old(progress_reporter), *final(progress_reporter), bytes),
{
    match progress_reporter {
        Some(sink) => {
            let _ = sink.update(bytes);
        },
        None => {},
    }
}

impl SynologyFileStation {
    /// The request that uploads the file at `source_file_path` into
    /// `target_directory_path`.
    pub fn upload(
        &self,
        source_file_path: &str,
        target_directory_path: &str,
        create_parents: bool,
        overwrite: bool,
        mtime: Option<u64>,
        crtime: Option<u64>,
        atime: Option<u64>,
    ) -> (r: Result<UploadRequest, SynologyErrorStatus>)
        ensures
            match spec_upload(
                self@,
                source_file_path@,
                target_directory_path@,
                create_parents,
                overwrite,
                mtime,
                crtime,
                atime,
            ) {
                Ok(request) => r matches Ok(built) && built@ == request,
                Err(e) => r matches Err(failure) && failure == e,
            },
    {
        let parameters: Vec<(String, String)> = Vec::new();
        assert(pairs_view(parameters@) =~= Seq::empty());
        let url = match self.get("SYNO.FileStation.Upload", "upload", 2, &parameters) {
            Ok(url) => url,
            Err(e) => {
                return Err(e);
            },
        };
        assert(url@ =~= entry_url(
            self@.url,
            "SYNO.FileStation.Upload"@,
            2,
            "upload"@,
            self@.sid->0,
        ));
        let file_name = last_segment_of(source_file_path);
        if !is_file_name_text(file_name.as_str()) {
            return Err(SynologyErrorStatus::UnknownError);
        }
        let mut fields: Vec<(String, String)> = Vec::new();
        assert(pairs_view(fields@) =~= Seq::empty());
        push_param(&mut fields, "path", target_directory_path.to_string());
        push_param(&mut fields, "create_parents", bool_to_str(create_parents).to_string());
        push_param(&mut fields, "overwrite", bool_to_str(overwrite).to_string());
        push_opt(&mut fields, "mtime", opt_u64_to_string(mtime));
        push_opt(&mut fields, "crtime", opt_u64_to_string(crtime));
        push_opt(&mut fields, "atime", opt_u64_to_string(atime));
        assert(pairs_view(fields@) =~= upload_fields(
            target_directory_path@,
            create_parents,
            overwrite,
            mtime,
            crtime,
            atime,
        ));
        Ok(
            UploadRequest {
                url,
                fields,
                file_field: "files".to_string(),
                file_name,
                content_type: "application/octet-stream".to_string(),
            },
        )
    }

    /// Takes the reply to an upload of `total_bytes` bytes. Where the upload
    /// succeeded the sink is handed the whole size once; where it failed the
    /// sink is left alone.
    pub fn upload_response<P: ProgressReporter, E>(
        outcome: HttpOutcome<SynologyResult<Empty, E>>,
        total_bytes: usize,
        progress_reporter: &mut Option<P>,
    ) -> (r: Result<(), SynologyErrorStatus>)
        ensures
            match spec_parse_outcome(outcome) {
                Ok(_) => r is Ok && took_report(
                    *old(progress_reporter),
                    *final(progress_reporter),
                    total_bytes,
                ),
                Err(e) => r == Err::<(), SynologyErrorStatus>(e) && *final(progress_reporter) == *old(
                    progress_reporter,
                ),
            },
    {
        match Self::parse(outcome) {
            Ok(_) => {
                report(progress_reporter, total_bytes);
                Ok(())
            },
            Err(e) => Err(e),
        }
    }

    /// The request that downloads `source_file_path` into the directory
    /// `target_directory_path`, under the last segment of its path.
    pub fn download(&self, source_file_path: &str, target_directory_path: &str) -> (r: Result<
        DownloadRequest,
        SynologyErrorStatus,
    >)
        ensures
            match spec_download(self@, source_file_path@, target_directory_path@) {
                Ok((url, path)) => r matches Ok(request) && request.url@ == url
                    && request.target_file_path@ == path,
                Err(e) => r matches Err(failure) && failure == e,
            },
    {
        let mut parameters: Vec<(String, String)> = Vec::new();
        assert(pairs_view(parameters@) =~= Seq::empty());
        push_param(&mut parameters, "path", source_file_path.to_string());
        push_param(&mut parameters, "mode", "download".to_string());
        assert(pairs_view(parameters@) =~= download_params(source_file_path@));
        let url = match self.get("SYNO.FileStation.Download", "download", 2, &parameters) {
            Ok(url) => url,
            Err(e) => {
                return Err(e);
            },
        };
        let file_name = last_segment_of(source_file_path);
        if !is_file_name_text(file_name.as_str()) {
            return Err(SynologyErrorStatus::UnknownError);
        }
        let target_file_path = join_path(target_directory_path, file_name.as_str());
        Ok(DownloadRequest { url, target_file_path })
    }

    /// Takes the status of the response to a download, before its body is
    /// read: a status outside 2xx is an HTTP error.
    pub fn download_response(status: u16) -> (r: Result<(), SynologyErrorStatus>)
        ensures
            r == if 200 <= status < 300 {
                Ok::<(), SynologyErrorStatus>(())
            } else {
                Err::<(), SynologyErrorStatus>(SynologyErrorStatus::HttpError(status))
            },
    {
        if 200 <= status && status < 300 {
            Ok(())
        } else {
            Err(SynologyErrorStatus::HttpError(status))
        }
    }

    /// Reports one chunk of a download that was written to the file.
    pub fn download_chunk<P: ProgressReporter>(progress_reporter: &mut Option<P>, written: usize)
        ensures
            took_report(*old(progress_reporter), *final(progress_reporter), written),
    {
        report(progress_reporter, written);
    }

    /// Ends the reports of a download: where the response told its length,
    /// the sink is handed that length once; else it is left alone.
    pub fn download_finished<P: ProgressReporter>(
        progress_reporter: &mut Option<P>,
        content_length: Option<u64>,
    )
        ensures
            match content_length {
                Some(length) => took_report(
                    *old(progress_reporter),
                    *final(progress_reporter),
                    clamp_len(length),
                ),
                None => *final(progress_reporter) == *old(progress_reporter),
            },
    {
        match content_length {
            Some(length) => {
                let bytes: usize = if length <= usize::MAX as u64 {
                    length as usize
                } else {
                    usize::MAX
                };
                report(progress_reporter, bytes);
            },
            None => {},
        }
    }
}

} // verus!
