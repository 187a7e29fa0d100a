use vstd::prelude::*;
use crate::text::chars_of;

verus! {

/// Room metadata as the room-info endpoint reports it.
#[derive(Clone, Debug)]
pub struct RoomInfo {
    pub uid: u64,
    pub room_id: u32,
    pub short_id: u32,
    pub attention: u32,
    pub online: u32,
    pub is_portrait: bool,
    pub description: String,
    pub live_status: u32,
    pub area_id: u32,
    pub parent_area_id: u32,
    pub parent_area_name: String,
    pub background: String,
    pub title: String,
    pub user_cover: String,
    pub keyframe: String,
    pub live_time: String,
    pub area_name: String,
}

/// The room-info endpoint's envelope: `code` 0 means `data` is the room.
#[derive(Clone, Debug)]
pub struct GetRoomInfoResponse {
    pub code: i32,
    pub message: String,
    pub data: RoomInfo,
}

impl GetRoomInfoResponse {
    /// The room on success, the endpoint's message otherwise.
    pub fn into_result(self) -> (r: Result<RoomInfo, String>)
        ensures
            self.code == 0 ==> r == Ok::<RoomInfo, String>(self.data),
            self.code != 0 ==> r == Err::<RoomInfo, String>(self.message),
    {
        if self.code != 0 {
            Err(self.message)
        } else {
            Ok(self.data)
        }
    }
}

/// The fan badge a viewer wears in a room.
#[derive(Clone, Debug)]
pub struct WearedV2 {
    pub name: String,
    pub level: u32,
    pub guard_level: u32,
    pub v2_medal_color_text: String,
    pub v2_medal_color_level: String,
}

#[derive(Clone, Debug)]
pub struct Medal {
    pub curr_weared_v2: WearedV2,
}

#[derive(Clone, Debug)]
pub struct RoomUserInfo {
    pub medal: Medal,
}

#[derive(Clone, Debug)]
pub struct BaseUserInfo {
    pub name: String,
    pub face: String,
}

/// The sender as the chat endpoint echoes it.
#[derive(Clone, Debug)]
pub struct User {
    pub uid: u64,
    pub base: BaseUserInfo,
}

#[derive(Clone, Debug)]
pub struct ModeInfo {
    pub mode: i32,
    pub user: User,
}

#[derive(Clone, Debug)]
pub struct SendDanmuData {
    pub mode_info: ModeInfo,
}

/// The chat endpoint's envelope: `code` 0 with `data` means the line was sent.
#[derive(Clone, Debug)]
pub struct SendDanmuResponse {
    pub code: i32,
    pub message: String,
    pub data: Option<SendDanmuData>,
}

impl SendDanmuResponse {
    /// The echoed data on success; otherwise the endpoint's message, which is
    /// also what a success without data yields.
    pub fn into_result(self) -> (r: Result<SendDanmuData, String>)
        ensures
            self.code == 0 && self.data is Some ==> r == Ok::<SendDanmuData, String>(
                self.data->Some_0,
            ),
            !(self.code == 0 && self.data is Some) ==> r == Err::<SendDanmuData, String>(
                self.message,
            ),
    {
        if self.code != 0 {
            return Err(self.message);
        }
        match self.data {
            Some(d) => Ok(d),
            None => Err(self.message),
        }
    }
}

/// Length of `bili_jct=`.
const CSRF_KEY_LEN: usize = 9;

/// The cookie name whose value is the request-forgery token.
pub open spec fn csrf_key() -> Seq<char> {
    seq!['b', 'i', 'l', 'i', '_', 'j', 'c', 't', '=']
}

/// A `"; "` separator between cookie entries starts at `j`.
pub open spec fn sep_at(s: Seq<char>, j: int) -> bool {
    0 <= j && j + 1 < s.len() && s[j] == ';' && s[j + 1] == ' '
}

/// A cookie entry starts at `p`.
pub open spec fn entry_start(s: Seq<char>, p: int) -> bool {
    p == 0 || (p >= 2 && sep_at(s, p - 2))
}

/// The token's entry starts at `p`.
pub open spec fn token_at(s: Seq<char>, p: int) -> bool {
    entry_start(s, p) && 0 <= p && p + csrf_key().len() <= s.len() && s.subrange(
        p,
        p + csrf_key().len(),
    ) == csrf_key()
}

/// Where a value starting at `i` ends: at the next `=`, the next separator, or the end.
pub open spec fn value_end(s: Seq<char>, i: int) -> int
    decreases s.len() - i,
{
    if i < 0 || i >= s.len() || s[i] == '=' || sep_at(s, i) {
        i
    } else {
        value_end(s, i + 1)
    }
}

pub open spec fn missing_token_text() -> Seq<char> {
    "无法找到 csrf token"@
}

fn key_at(cs: &Vec<char>, p: usize) -> (r: bool)
    ensures
        r == (p + csrf_key().len() <= cs@.len() && cs@.subrange(
            p as int,
            p + csrf_key().len(),
        ) == csrf_key()),
{
    let key = vec!['b', 'i', 'l', 'i', '_', 'j', 'c', 't', '='];
    assert(key@ == csrf_key());
    assert(key@.len() == CSRF_KEY_LEN);
    if p > cs.len() || cs.len() - p < key.len() {
        return false;
    }
    let mut k: usize = 0;
    while k < key.len()
        invariant
            key@ == csrf_key(),
            key@.len() == CSRF_KEY_LEN,
            p + CSRF_KEY_LEN <= cs.len(),
            k <= key@.len(),
            forall|j: int| 0 <= j < k ==> cs@[p + j] == key@[j],
        decreases key@.len() - k,
    {
        if cs[p + k] != key[k] {
            assert(cs@.subrange(p as int, p + csrf_key().len())[k as int] != csrf_key()[k as int]);
            return false;
        }
        k = k + 1;
    }
    assert(cs@.subrange(p as int, p + csrf_key().len()) =~= csrf_key());
    true
}

/// The request-forgery token carried by a cookie header: the value of the
/// first `bili_jct` entry, up to the next `=` or the end of the entry.
pub fn csrf_token(cookie: &str) -> (r: Result<String, String>)
    ensures
        r is Ok <==> exists|p: int| token_at(cookie@, p),
        r is Err ==> r->Err_0@ == missing_token_text(),
        r is Ok ==> exists|p: int|
            {
                &&& token_at(cookie@, p)
                &&& forall|q: int| 0 <= q < p ==> !token_at(cookie@, q)
                &&& r->Ok_0@ == cookie@.subrange(
                    p + csrf_key().len(),
                    value_end(cookie@, p + csrf_key().len()),
                )
            },
{
    let cs = chars_of(cookie);
    let n = cs.len();
    let ghost s = cookie@;
    let mut p: usize = 0;
    while p < n
        invariant
            cs@ == s,
            s == cookie@,
            n == s.len(),
            p <= n,
            forall|q: int| 0 <= q < p ==> !token_at(s, q),
        decreases n - p,
    {
        let starts = p == 0 || (p >= 2 && cs[p - 2] == ';' && cs[p - 1] == ' ');
        if starts && key_at(&cs, p) {
            assert(csrf_key().len() == CSRF_KEY_LEN);
            assert(token_at(s, p as int));
            let from = p + CSRF_KEY_LEN;
            let mut e: usize = from;
            while e < n && cs[e] != '=' && !(cs[e] == ';' && e + 1 < n && cs[e + 1] == ' ')
                invariant
                    cs@ == s,
                    s == cookie@,
                    n == s.len(),
                    from <= e <= n,
                    value_end(s, from as int) == value_end(s, e as int),
                decreases n - e,
            {
                e = e + 1;
            }
            assert(value_end(s, e as int) == e);
            let value = String::from_str(cookie.substring_char(from, e));
            assert(value@ == s.subrange(p + csrf_key().len(), value_end(s, p + csrf_key().len())));
            return Ok(value);
        }
        p = p + 1;
    }
    assert forall|q: int| #![auto] token_at(s, q) implies false by {
        assert(q < n);
    }
    Err(String::from_str("无法找到 csrf token"))
}

} // verus!
