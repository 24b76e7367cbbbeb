//! Requests to the intranet and to the Blih repository service, and what the
//! client reports of the service's answers.

use vstd::prelude::*;
use vstd::string::StringExecFns;

use crate::data::{Board, Document, Pass};
use crate::signing::{blih_signature, do_hamxc_login_passwd, hmac_sha512};
use vstd::utf8::encode_utf8;
use crate::table::text_of;
use crate::text::{
    hex_lower,
    compact_from, json_compact, json_plain, json_quote, json_string, lemma_compact_concat,
    lemma_plain_in_string, lex_end, JsonLex,
};

verus! {

/// The address of the repository service.
pub const BLIH_URL: &'static str = "https://blih.epitech.eu";

/// The content type of every request body sent to the repository service.
pub const JSON_CONTENT_TYPE: &'static str = "application/json";

/// The user the school's collection robot reads repositories as.
pub const COLLECTOR_USER: &'static str = "ramassage-tek";

/// The right given to the collection robot on a new repository.
pub const COLLECTOR_RIGHT: &'static str = "r";

/// An intranet URL: the autologin link, the path, then the JSON format query.
pub open spec fn intranet_url(autologin: Seq<char>, path: Seq<char>) -> Seq<char> {
    autologin + path + "/?format=json"@
}

/// The intranet URL of a path, asking for JSON.
pub fn builder_url_autologin(autologin_url: &String, path: &str) -> (url: String)
    ensures
        url@ == intranet_url(autologin_url@, path@),
        url@ == autologin_url@ + path@ + "/?format=json"@,
{
    let mut url = autologin_url.clone();
    url.append(path);
    url.append("/?format=json");
    url
}

/// A URL of the repository service: its address followed by the path.
pub fn builder_url_blih(blih_url: &str, path: &str) -> (url: String)
    ensures
        url@ == blih_url@ + path@,
{
    let mut url = text_of(blih_url);
    url.append(path);
    url
}

/// The path, under the autologin link, of a student's marks.
pub open spec fn notes_path(login: Seq<char>) -> Seq<char> {
    "/user/"@ + login + "/notes/"@
}

/// The path of a student's marks.
pub fn user_notes_path(login: &String) -> (path: String)
    ensures
        path@ == notes_path(login@),
        path@ == "/user/"@ + login@ + "/notes/"@,
{
    let mut path = text_of("/user/");
    path.append(login.as_str());
    path.append("/notes/");
    path
}

/// The data signed when creating a repository (the service's own layout).
pub open spec fn create_repo_data(name: Seq<char>) -> Seq<char> {
    "{\n    \"name\": \""@ + name + "\",\n    \"type\": \"git\"\n}"@
}

/// The data signed when setting a right on a repository (the service's own layout).
pub open spec fn right_repo_data(right: Seq<char>, user: Seq<char>) -> Seq<char> {
    "{\n    \"acl\": \""@ + right + "\",\n    \"user\": \""@ + user + "\"\n}"@
}

/// The signed data of a repository creation.
pub fn json_for_create_repo(name: &String) -> (data: String)
    ensures
        data@ == create_repo_data(name@),
        data@ == "{\n    \"name\": \""@ + name@ + "\",\n    \"type\": \"git\"\n}"@,
{
    let mut data = text_of("{\n    \"name\": \"");
    data.append(name.as_str());
    data.append("\",\n    \"type\": \"git\"\n}");
    data
}

/// The signed data of a right given to a user.
pub fn json_for_right_repo(right: &String, user: &String) -> (data: String)
    ensures
        data@ == right_repo_data(right@, user@),
        data@ == "{\n    \"acl\": \""@ + right@ + "\",\n    \"user\": \""@ + user@ + "\"\n}"@,
{
    let mut data = text_of("{\n    \"acl\": \"");
    data.append(right.as_str());
    data.append("\",\n    \"user\": \"");
    data.append(user.as_str());
    data.append("\"\n}");
    data
}

/// A request that carries only the caller's identity.
#[derive(Debug)]
pub struct Blih {
    pub user: String,
    pub signature: String,
}

/// What a request changes on the service.
#[derive(Debug)]
pub enum BlihPayload {
    /// Create a git repository of this name.
    NewRepository { name: String },
    /// Give `user` the right `acl`.
    Acl { acl: String, user: String },
}

/// A request with the caller's identity and a payload.
#[derive(Debug)]
pub struct BlihData {
    pub user: String,
    pub signature: String,
    pub data: BlihPayload,
}

/// The service's answer to a change: a message on success, an error otherwise.
#[derive(Debug)]
pub struct BlihResponse {
    pub message: Option<String>,
    pub error: Option<String>,
}

/// The JSON text of an identity.
pub open spec fn blih_json(user: Seq<char>, signature: Seq<char>) -> Seq<char> {
    "{\"user\":"@ + json_string(user) + ",\"signature\":"@ + json_string(signature) + "}"@
}

/// The JSON text of a repository creation payload.
pub open spec fn new_repository_json(name: Seq<char>) -> Seq<char> {
    "{\"name\":"@ + json_string(name) + ",\"type\":\"git\"}"@
}

/// The JSON text of a right payload (its keys in sorted order).
pub open spec fn acl_json(acl: Seq<char>, user: Seq<char>) -> Seq<char> {
    "{\"acl\":"@ + json_string(acl) + ",\"user\":"@ + json_string(user) + "}"@
}

/// The JSON text of a payload.
pub open spec fn payload_json(p: BlihPayload) -> Seq<char> {
    match p {
        BlihPayload::NewRepository { name } => new_repository_json(name@),
        BlihPayload::Acl { acl, user } => acl_json(acl@, user@),
    }
}

/// The JSON text of an identity with the JSON text of a payload.
pub open spec fn blih_data_json(user: Seq<char>, signature: Seq<char>, data: Seq<char>) -> Seq<char> {
    "{\"user\":"@ + json_string(user) + ",\"signature\":"@ + json_string(signature) + ",\"data\":"@
        + data + "}"@
}

impl Blih {
    /// The JSON text of the request body.
    pub fn to_json(&self) -> (j: String)
        ensures
            j@ == blih_json(self.user@, self.signature@),
            j@ == "{\"user\":"@ + json_string(self.user@) + ",\"signature\":"@ + json_string(self.signature@) + "}"@,
    {
        let mut j = text_of("{\"user\":");
        j.append(json_quote(self.user.as_str()).as_str());
        j.append(",\"signature\":");
        j.append(json_quote(self.signature.as_str()).as_str());
        j.append("}");
        j
    }
}

impl BlihPayload {
    /// The JSON text of the payload.
    pub fn to_json(&self) -> (j: String)
        ensures
            j@ == payload_json(*self),
    {
        match self {
            BlihPayload::NewRepository { name } => {
                let mut j = text_of("{\"name\":");
                j.append(json_quote(name.as_str()).as_str());
                j.append(",\"type\":\"git\"}");
                j
            },
            BlihPayload::Acl { acl, user } => {
                let mut j = text_of("{\"acl\":");
                j.append(json_quote(acl.as_str()).as_str());
                j.append(",\"user\":");
                j.append(json_quote(user.as_str()).as_str());
                j.append("}");
                j
            },
        }
    }
}

impl BlihData {
    /// The JSON text of the request body.
    pub fn to_json(&self) -> (j: String)
        ensures
            j@ == blih_data_json(self.user@, self.signature@, payload_json(self.data)),
    {
        let mut j = text_of("{\"user\":");
        j.append(json_quote(self.user.as_str()).as_str());
        j.append(",\"signature\":");
        j.append(json_quote(self.signature.as_str()).as_str());
        j.append(",\"data\":");
        j.append(self.data.to_json().as_str());
        j.append("}");
        j
    }
}


/// The HTTP method of a request.
#[derive(Clone, Copy, Debug, PartialEq, Eq, Structural)]
pub enum HttpMethod {
    Get,
    Post,
}

/// A request to the repository service: method, URL and JSON body.
#[derive(Debug)]
pub struct BlihRequest {
    pub method: HttpMethod,
    pub url: String,
    pub body: String,
}

/// The URL of the repository collection.
pub open spec fn repositories_url() -> Seq<char> {
    BLIH_URL@ + "/repositories"@
}

/// The URL of the rights of a repository.
pub open spec fn acls_url(name: Seq<char>) -> Seq<char> {
    BLIH_URL@ + "/repository/"@ + name + "/acls"@
}

/// The request that gives `user` the right `right` on repository `name`:
/// a POST to the repository's rights, signed over the right's data.
pub open spec fn is_right_request(r: BlihRequest, pass: Pass, name: Seq<char>, user: Seq<char>, right: Seq<char>) -> bool {
    &&& r.method == HttpMethod::Post
    &&& r.url@ == acls_url(name)
    &&& r.body@ == blih_data_json(
        pass.login@,
        blih_signature(pass.passwd@, pass.login@, Some(right_repo_data(right, user))),
        acl_json(right, user),
    )
}

/// The request listing the caller's repositories: a GET of the repository
/// collection whose body is the caller's identity, signed over the login alone.
pub fn repos_request(pass: &Pass) -> (r: BlihRequest)
    ensures
        r.method == HttpMethod::Get,
        r.url@ == repositories_url(),
        r.body@ == blih_json(pass.login@, blih_signature(pass.passwd@, pass.login@, None)),
        r.url@ == BLIH_URL@ + "/repositories"@,
        r.body@ == "{\"user\":"@ + json_string(pass.login@) + ",\"signature\":"@
            + json_string(hex_lower(hmac_sha512(encode_utf8(pass.passwd@), encode_utf8(pass.login@)))) + "}"@,
{
    let data = Blih {
        user: pass.login.clone(),
        signature: do_hamxc_login_passwd(&pass.passwd, &pass.login, None),
    };
    BlihRequest { method: HttpMethod::Get, url: builder_url_blih(BLIH_URL, "/repositories"), body: data.to_json() }
}

/// The request creating repository `repo_name`: a POST to the repository
/// collection, signed over the creation data.
pub fn create_repo_request(pass: &Pass, repo_name: &String) -> (r: BlihRequest)
    ensures
        r.method == HttpMethod::Post,
        r.url@ == repositories_url(),
        r.body@ == blih_data_json(
            pass.login@,
            blih_signature(pass.passwd@, pass.login@, Some(create_repo_data(repo_name@))),
            new_repository_json(repo_name@),
        ),
        r.url@ == BLIH_URL@ + "/repositories"@,
        r.body@ == "{\"user\":"@ + json_string(pass.login@) + ",\"signature\":"@
            + json_string(hex_lower(hmac_sha512(encode_utf8(pass.passwd@), encode_utf8(pass.login@ + ("{\n    \"name\": \""@ + repo_name@ + "\",\n    \"type\": \"git\"\n}"@)))))
            + ",\"data\":"@ + ("{\"name\":"@ + json_string(repo_name@) + ",\"type\":\"git\"}"@) + "}"@,
{
    let data = BlihData {
        user: pass.login.clone(),
        signature: do_hamxc_login_passwd(&pass.passwd, &pass.login, Some(json_for_create_repo(repo_name))),
        data: BlihPayload::NewRepository { name: repo_name.clone() },
    };
    BlihRequest { method: HttpMethod::Post, url: builder_url_blih(BLIH_URL, "/repositories"), body: data.to_json() }
}

/// The request giving `user` the right `user_right` on repository `repo_name`.
pub fn right_repo_request(pass: &Pass, repo_name: &String, user: &String, user_right: &String) -> (r: BlihRequest)
    ensures
        is_right_request(r, *pass, repo_name@, user@, user_right@),
        r.method == HttpMethod::Post,
        r.url@ == BLIH_URL@ + "/repository/"@ + repo_name@ + "/acls"@,
        r.body@ == "{\"user\":"@ + json_string(pass.login@) + ",\"signature\":"@
            + json_string(hex_lower(hmac_sha512(encode_utf8(pass.passwd@), encode_utf8(pass.login@ + ("{\n    \"acl\": \""@ + user_right@ + "\",\n    \"user\": \""@ + user@ + "\"\n}"@)))))
            + ",\"data\":"@ + ("{\"acl\":"@ + json_string(user_right@) + ",\"user\":"@ + json_string(user@) + "}"@) + "}"@,
{
    let data = BlihData {
        user: pass.login.clone(),
        signature: do_hamxc_login_passwd(&pass.passwd, &pass.login, Some(json_for_right_repo(user_right, user))),
        data: BlihPayload::Acl { acl: user_right.clone(), user: user.clone() },
    };
    let mut path = text_of("/repository/");
    path.append(repo_name.as_str());
    path.append("/acls");
    let url = builder_url_blih(BLIH_URL, path.as_str());
    assert(url@ =~= acls_url(repo_name@));
    BlihRequest { method: HttpMethod::Post, url, body: data.to_json() }
}

/// The texts of lines.
pub open spec fn lines_view(lines: Seq<String>) -> Seq<Seq<char>> {
    lines.map_values(|l: String| l@)
}

/// What the client prints of an answer: the error if any, then the message if any.
pub open spec fn reply_lines(resp: BlihResponse) -> Seq<Seq<char>> {
    (match resp.error {
        Some(e) => seq![e@],
        None => Seq::empty(),
    }) + (match resp.message {
        Some(m) => seq![m@],
        None => Seq::empty(),
    })
}

/// The lines printed for the answer to a right request.
pub fn right_repo_reply(resp: &BlihResponse) -> (lines: Vec<String>)
    ensures
        lines_view(lines@) == reply_lines(*resp),
        lines@.len() == (if resp.error is Some { 1int } else { 0int }) + (if resp.message is Some { 1int } else { 0int }),
        resp.error matches Some(e) ==> lines@[0]@ == e@,
        resp.message matches Some(m) ==> lines@[lines@.len() - 1]@ == m@,
{
    let mut lines: Vec<String> = Vec::new();
    if let Some(e) = &resp.error {
        lines.push(e.clone());
    }
    if let Some(m) = &resp.message {
        lines.push(m.clone());
    }
    proof {
        assert(lines_view(lines@) =~= reply_lines(*resp));
    }
    lines
}

/// The clone address of a repository.
pub open spec fn clone_address(login: Seq<char>, name: Seq<char>) -> Seq<char> {
    "git@git.epitech.eu:/"@ + login + "/"@ + name
}

/// What follows an answer: lines to print, then possibly a request to send.
#[derive(Debug)]
pub struct BlihOutcome {
    pub lines: Vec<String>,
    pub follow_up: Option<BlihRequest>,
}

/// What the client does with the answer to a repository creation: print the
/// error if any; on success print the message and the clone address, then give
/// the collection robot read access to the new repository.
pub fn create_repo_reply(pass: &Pass, repo_name: &String, resp: &BlihResponse) -> (out: BlihOutcome)
    ensures
        lines_view(out.lines@) == reply_lines(*resp) + (match resp.message {
            Some(_) => seq![clone_address(pass.login@, repo_name@)],
            None => Seq::empty(),
        }),
        resp.message is Some <==> out.follow_up is Some,
        out.lines@.len() == (if resp.error is Some { 1int } else { 0int }) + (if resp.message is Some { 2int } else { 0int }),
        resp.error matches Some(e) ==> out.lines@[0]@ == e@,
        resp.message matches Some(m) ==> out.lines@[out.lines@.len() - 2]@ == m@
            && out.lines@[out.lines@.len() - 1]@ == "git@git.epitech.eu:/"@ + pass.login@ + "/"@ + repo_name@,
        out.follow_up matches Some(r) ==> is_right_request(r, *pass, repo_name@, COLLECTOR_USER@, COLLECTOR_RIGHT@),
{
    let mut lines: Vec<String> = Vec::new();
    if let Some(e) = &resp.error {
        lines.push(e.clone());
    }
    let mut follow_up: Option<BlihRequest> = None;
    if let Some(m) = &resp.message {
        lines.push(m.clone());
        let mut address = text_of("git@git.epitech.eu:/");
        address.append(pass.login.as_str());
        address.append("/");
        address.append(repo_name.as_str());
        lines.push(address);
        follow_up = Some(right_repo_request(pass, repo_name, &text_of(COLLECTOR_USER), &text_of(COLLECTOR_RIGHT)));
    }
    proof {
        assert(lines_view(lines@) =~= reply_lines(*resp) + (match resp.message {
            Some(_) => seq![clone_address(pass.login@, repo_name@)],
            None => Seq::<Seq<char>>::empty(),
        }));
    }
    BlihOutcome { lines, follow_up }
}


/// The intranet's address for files.
pub const INTRA_URL: &'static str = "https://intra.epitech.eu";

/// The intranet URL listing the files of project `idx` of the board, when
/// there is such a project.
pub fn project_files_url(board: &Board, idx: i32, autologin_url: &String) -> (url: Option<String>)
    ensures
        (0 <= idx < board.projets.len()) <==> url is Some,
        url matches Some(u) ==> u@ == intranet_url(
            autologin_url@,
            board.projets[idx as int].title_link@ + "project/file"@,
        ),
        url matches Some(u) ==> u@ == autologin_url@ + (board.projets[idx as int].title_link@ + "project/file"@)
            + "/?format=json"@,
{
    if idx < 0 || idx as usize >= board.projets.len() {
        return None;
    }
    let mut path = board.projets[idx as usize].title_link.clone();
    path.append("project/file");
    Some(builder_url_autologin(autologin_url, path.as_str()))
}

/// The download URL of a project file.
pub fn document_url(doc: &Document) -> (url: String)
    ensures
        url@ == INTRA_URL@ + doc.fullpath@,
{
    builder_url_blih(INTRA_URL, doc.fullpath.as_str())
}


proof fn lemma_layout_create_head()
    ensures
        compact_from(JsonLex::Outside, "{\n    \"name\": \""@) == seq!['{', '"', 'n', 'a', 'm', 'e', '"', ':', '"'],
        lex_end(JsonLex::Outside, "{\n    \"name\": \""@) == JsonLex::InString,
{
    reveal_strlit("{\n    \"name\": \"");
    let s = seq!['{', '\n', ' ', ' ', ' ', ' ', '"', 'n', 'a', 'm', 'e', '"', ':', ' ', '"'];
    assert("{\n    \"name\": \""@ =~= s);
    reveal_with_fuel(compact_from, 17);
    reveal_with_fuel(lex_end, 17);
    assert(compact_from(JsonLex::Outside, s) =~= seq!['{', '"', 'n', 'a', 'm', 'e', '"', ':', '"']);
}

proof fn lemma_layout_create_tail()
    ensures
        compact_from(JsonLex::InString, "\",\n    \"type\": \"git\"\n}"@) == seq!['"', ',', '"', 't', 'y', 'p', 'e', '"', ':', '"', 'g', 'i', 't', '"', '}'],
        lex_end(JsonLex::InString, "\",\n    \"type\": \"git\"\n}"@) == JsonLex::Outside,
{
    reveal_strlit("\",\n    \"type\": \"git\"\n}");
    let s = seq!['"', ',', '\n', ' ', ' ', ' ', ' ', '"', 't', 'y', 'p', 'e', '"', ':', ' ', '"', 'g', 'i', 't', '"', '\n', '}'];
    assert("\",\n    \"type\": \"git\"\n}"@ =~= s);
    reveal_with_fuel(compact_from, 24);
    reveal_with_fuel(lex_end, 24);
    assert(compact_from(JsonLex::InString, s) =~= seq!['"', ',', '"', 't', 'y', 'p', 'e', '"', ':', '"', 'g', 'i', 't', '"', '}']);
}

proof fn lemma_layout_acl_head()
    ensures
        compact_from(JsonLex::Outside, "{\n    \"acl\": \""@) == seq!['{', '"', 'a', 'c', 'l', '"', ':', '"'],
        lex_end(JsonLex::Outside, "{\n    \"acl\": \""@) == JsonLex::InString,
{
    reveal_strlit("{\n    \"acl\": \"");
    let s = seq!['{', '\n', ' ', ' ', ' ', ' ', '"', 'a', 'c', 'l', '"', ':', ' ', '"'];
    assert("{\n    \"acl\": \""@ =~= s);
    reveal_with_fuel(compact_from, 16);
    reveal_with_fuel(lex_end, 16);
    assert(compact_from(JsonLex::Outside, s) =~= seq!['{', '"', 'a', 'c', 'l', '"', ':', '"']);
}

proof fn lemma_layout_acl_middle()
    ensures
        compact_from(JsonLex::InString, "\",\n    \"user\": \""@) == seq!['"', ',', '"', 'u', 's', 'e', 'r', '"', ':', '"'],
        lex_end(JsonLex::InString, "\",\n    \"user\": \""@) == JsonLex::InString,
{
    reveal_strlit("\",\n    \"user\": \"");
    let s = seq!['"', ',', '\n', ' ', ' ', ' ', ' ', '"', 'u', 's', 'e', 'r', '"', ':', ' ', '"'];
    assert("\",\n    \"user\": \""@ =~= s);
    reveal_with_fuel(compact_from, 18);
    reveal_with_fuel(lex_end, 18);
    assert(compact_from(JsonLex::InString, s) =~= seq!['"', ',', '"', 'u', 's', 'e', 'r', '"', ':', '"']);
}

proof fn lemma_layout_acl_tail()
    ensures
        compact_from(JsonLex::InString, "\"\n}"@) == seq!['"', '}'],
        lex_end(JsonLex::InString, "\"\n}"@) == JsonLex::Outside,
{
    reveal_strlit("\"\n}");
    let s = seq!['"', '\n', '}'];
    assert("\"\n}"@ =~= s);
    reveal_with_fuel(compact_from, 5);
    reveal_with_fuel(lex_end, 5);
    assert(compact_from(JsonLex::InString, s) =~= seq!['"', '}']);
}

proof fn lemma_layout_name_key()
    ensures
        compact_from(JsonLex::Outside, "{\"name\":"@) == seq!['{', '"', 'n', 'a', 'm', 'e', '"', ':'],
        lex_end(JsonLex::Outside, "{\"name\":"@) == JsonLex::Outside,
{
    reveal_strlit("{\"name\":");
    let s = seq!['{', '"', 'n', 'a', 'm', 'e', '"', ':'];
    assert("{\"name\":"@ =~= s);
    reveal_with_fuel(compact_from, 10);
    reveal_with_fuel(lex_end, 10);
    assert(compact_from(JsonLex::Outside, s) =~= seq!['{', '"', 'n', 'a', 'm', 'e', '"', ':']);
}

proof fn lemma_layout_type_member()
    ensures
        compact_from(JsonLex::Outside, ",\"type\":\"git\"}"@) == seq![',', '"', 't', 'y', 'p', 'e', '"', ':', '"', 'g', 'i', 't', '"', '}'],
        lex_end(JsonLex::Outside, ",\"type\":\"git\"}"@) == JsonLex::Outside,
{
    reveal_strlit(",\"type\":\"git\"}");
    let s = seq![',', '"', 't', 'y', 'p', 'e', '"', ':', '"', 'g', 'i', 't', '"', '}'];
    assert(",\"type\":\"git\"}"@ =~= s);
    reveal_with_fuel(compact_from, 16);
    reveal_with_fuel(lex_end, 16);
    assert(compact_from(JsonLex::Outside, s) =~= seq![',', '"', 't', 'y', 'p', 'e', '"', ':', '"', 'g', 'i', 't', '"', '}']);
}

proof fn lemma_layout_acl_key()
    ensures
        compact_from(JsonLex::Outside, "{\"acl\":"@) == seq!['{', '"', 'a', 'c', 'l', '"', ':'],
        lex_end(JsonLex::Outside, "{\"acl\":"@) == JsonLex::Outside,
{
    reveal_strlit("{\"acl\":");
    let s = seq!['{', '"', 'a', 'c', 'l', '"', ':'];
    assert("{\"acl\":"@ =~= s);
    reveal_with_fuel(compact_from, 9);
    reveal_with_fuel(lex_end, 9);
    assert(compact_from(JsonLex::Outside, s) =~= seq!['{', '"', 'a', 'c', 'l', '"', ':']);
}

proof fn lemma_layout_user_key()
    ensures
        compact_from(JsonLex::Outside, ",\"user\":"@) == seq![',', '"', 'u', 's', 'e', 'r', '"', ':'],
        lex_end(JsonLex::Outside, ",\"user\":"@) == JsonLex::Outside,
{
    reveal_strlit(",\"user\":");
    let s = seq![',', '"', 'u', 's', 'e', 'r', '"', ':'];
    assert(",\"user\":"@ =~= s);
    reveal_with_fuel(compact_from, 10);
    reveal_with_fuel(lex_end, 10);
    assert(compact_from(JsonLex::Outside, s) =~= seq![',', '"', 'u', 's', 'e', 'r', '"', ':']);
}

proof fn lemma_layout_close()
    ensures
        compact_from(JsonLex::Outside, "}"@) == seq!['}'],
        lex_end(JsonLex::Outside, "}"@) == JsonLex::Outside,
{
    reveal_strlit("}");
    let s = seq!['}'];
    assert("}"@ =~= s);
    reveal_with_fuel(compact_from, 3);
    reveal_with_fuel(lex_end, 3);
    assert(compact_from(JsonLex::Outside, s) =~= seq!['}']);
}

proof fn lemma_compact_json_string(t: Seq<char>)
    requires
        json_plain(t),
    ensures
        compact_from(JsonLex::Outside, json_string(t)) == json_string(t),
        lex_end(JsonLex::Outside, json_string(t)) == JsonLex::Outside,
        json_string(t) == seq!['"'] + t + seq!['"'],
{
    lemma_plain_in_string(t);
    let q = seq!['"'];
    reveal_with_fuel(compact_from, 2);
    reveal_with_fuel(lex_end, 2);
    assert(compact_from(JsonLex::Outside, q) =~= q);
    assert(lex_end(JsonLex::Outside, q) == JsonLex::InString);
    assert(compact_from(JsonLex::InString, q) =~= q);
    assert(lex_end(JsonLex::InString, q) == JsonLex::Outside);
    lemma_compact_concat(JsonLex::Outside, q, t);
    lemma_compact_concat(JsonLex::Outside, q + t, q);
}

/// The signed text of a repository creation and the payload sent with it denote
/// the same JSON object, for a name that JSON writes unescaped: without the
/// whitespace between tokens both are the payload's text.
pub proof fn lemma_create_repo_data_is_payload(name: Seq<char>)
    requires
        json_plain(name),
    ensures
        json_compact(create_repo_data(name)) == new_repository_json(name),
        json_compact(new_repository_json(name)) == new_repository_json(name),
        new_repository_json(name) == "{\"name\":"@ + (seq!['"'] + name + seq!['"']) + ",\"type\":\"git\"}"@,
{
    let a = "{\n    \"name\": \""@;
    let b = "\",\n    \"type\": \"git\"\n}"@;
    lemma_layout_create_head();
    lemma_layout_create_tail();
    lemma_plain_in_string(name);
    lemma_compact_concat(JsonLex::Outside, a, name);
    lemma_compact_concat(JsonLex::Outside, a + name, b);
    let k = "{\"name\":"@;
    let m = ",\"type\":\"git\"}"@;
    reveal_strlit("{\"name\":");
    reveal_strlit(",\"type\":\"git\"}");
    assert(k =~= seq!['{', '"', 'n', 'a', 'm', 'e', '"', ':']);
    assert(m =~= seq![',', '"', 't', 'y', 'p', 'e', '"', ':', '"', 'g', 'i', 't', '"', '}']);
    lemma_compact_json_string(name);
    assert(json_compact(create_repo_data(name)) =~= new_repository_json(name));
    lemma_layout_name_key();
    lemma_layout_type_member();
    lemma_compact_concat(JsonLex::Outside, k, json_string(name));
    lemma_compact_concat(JsonLex::Outside, k + json_string(name), m);
}

/// The signed text of a right and the payload sent with it denote the same JSON
/// object, for a right and a user that JSON writes unescaped.
pub proof fn lemma_right_repo_data_is_payload(right: Seq<char>, user: Seq<char>)
    requires
        json_plain(right),
        json_plain(user),
    ensures
        json_compact(right_repo_data(right, user)) == acl_json(right, user),
        json_compact(acl_json(right, user)) == acl_json(right, user),
        acl_json(right, user) == "{\"acl\":"@ + (seq!['"'] + right + seq!['"']) + ",\"user\":"@ + (seq!['"'] + user
            + seq!['"']) + "}"@,
{
    let a = "{\n    \"acl\": \""@;
    let b = "\",\n    \"user\": \""@;
    let c = "\"\n}"@;
    lemma_layout_acl_head();
    lemma_layout_acl_middle();
    lemma_layout_acl_tail();
    lemma_plain_in_string(right);
    lemma_plain_in_string(user);
    lemma_compact_concat(JsonLex::Outside, a, right);
    lemma_compact_concat(JsonLex::Outside, a + right, b);
    lemma_compact_concat(JsonLex::Outside, a + right + b, user);
    lemma_compact_concat(JsonLex::Outside, a + right + b + user, c);
    let k = "{\"acl\":"@;
    let u = ",\"user\":"@;
    let e = "}"@;
    reveal_strlit("{\"acl\":");
    reveal_strlit(",\"user\":");
    reveal_strlit("}");
    assert(k =~= seq!['{', '"', 'a', 'c', 'l', '"', ':']);
    assert(u =~= seq![',', '"', 'u', 's', 'e', 'r', '"', ':']);
    assert(e =~= seq!['}']);
    lemma_compact_json_string(right);
    lemma_compact_json_string(user);
    assert(json_compact(right_repo_data(right, user)) =~= acl_json(right, user));
    lemma_layout_acl_key();
    lemma_layout_user_key();
    lemma_layout_close();
    lemma_compact_concat(JsonLex::Outside, k, json_string(right));
    lemma_compact_concat(JsonLex::Outside, k + json_string(right), u);
    lemma_compact_concat(JsonLex::Outside, k + json_string(right) + u, json_string(user));
    lemma_compact_concat(JsonLex::Outside, k + json_string(right) + u + json_string(user), e);
}


/// A right request is a POST to the rights of the named repository whose payload
/// names the given right and the given user, and whose signature covers the
/// login followed by the signed right data naming that same right and user.
pub proof fn lemma_right_request_names_user(r: BlihRequest, pass: Pass, name: Seq<char>, user: Seq<char>, right: Seq<char>)
    requires
        is_right_request(r, pass, name, user, right),
    ensures
        r.method == HttpMethod::Post,
        r.url@ == BLIH_URL@ + "/repository/"@ + name + "/acls"@,
        r.body@ == "{\"user\":"@ + json_string(pass.login@) + ",\"signature\":"@
            + json_string(hex_lower(hmac_sha512(encode_utf8(pass.passwd@), encode_utf8(pass.login@ + ("{\n    \"acl\": \""@ + right + "\",\n    \"user\": \""@ + user + "\"\n}"@)))))
            + ",\"data\":"@ + ("{\"acl\":"@ + json_string(right) + ",\"user\":"@ + json_string(user) + "}"@) + "}"@,
{
    crate::signing::lemma_signature_covers_login_and_data(pass.passwd@, pass.login@, right_repo_data(right, user));
}

} // verus!
