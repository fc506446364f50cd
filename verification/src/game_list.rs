//! Records returned by the remote session directory.  The directory itself is
//! an external collaborator reached over HTTP by the host application; the
//! library only defines the shape of what it returns.

use vstd::prelude::*;
use vstd::string::StrSliceExecFns;
use crate::codec::push_char;
use crate::types::GameId;

verus! {

/// The directory category that the coordinator watches.
#[derive(Clone, Copy, PartialEq, Eq, Structural)]
pub enum GameCategory {
    Best,
}

/// The name of a category as it appears in the directory's URLs.
pub open spec fn category_name(c: GameCategory) -> Seq<char> {
    match c {
        GameCategory::Best => "best"@,
    }
}

impl GameCategory {
    /// The name of the category as it appears in the directory's URLs.
    pub fn get_name(&self) -> (r: &'static str)
        ensures
            r@ == category_name(*self),
    {
        match self {
            GameCategory::Best => "best",
        }
    }
}

/// One live game record from the directory's initial snapshot; the
/// coordinator consumes only the identifier.
#[derive(Debug, Clone)]
pub struct GameInfo {
    pub id: GameId,
    pub rated: bool,
    pub variant: String,
    pub speed: String,
    pub perf: String,
    pub created_at: u64,
    pub last_move_at: u64,
    pub status: String,
    pub players: Players,
    pub moves: String,
    pub clock: Clock,
}

/// Both sides of one game.
#[derive(Debug, Clone)]
pub struct Players {
    pub white: Player,
    pub black: Player,
}

/// One side of a game: the account and its rating.
#[derive(Debug, Clone)]
pub struct Player {
    pub user: UserInfo,
    pub rating: u32,
}

/// The account behind one side of a game.
#[derive(Debug, Clone)]
pub struct UserInfo {
    pub name: String,
    pub id: String,
    pub flair: Option<String>,
    pub title: Option<String>,
}

/// The time control of a game.
#[derive(Debug, Clone)]
pub struct Clock {
    pub initial: u64,
    pub increment: i64,
    pub total_time: u64,
}

/// The query-string exclusion parameters of a replacement fetch: one
/// `exclude=` parameter per identifier, each followed by `&`, in order.
pub open spec fn exclude_params(ids: Seq<Seq<char>>) -> Seq<char>
    decreases ids.len(),
{
    if ids.len() == 0 {
        Seq::empty()
    } else {
        "exclude="@ + ids[0] + seq!['&'] + exclude_params(ids.drop_first())
    }
}

/// Excluding one more identifier appends one more parameter.
pub proof fn lemma_exclude_push(ids: Seq<Seq<char>>, id: Seq<char>)
    ensures
        exclude_params(ids.push(id)) == exclude_params(ids) + "exclude="@ + id + seq!['&'],
    decreases ids.len(),
{
    if ids.len() == 0 {
        assert(exclude_params(ids) == Seq::<char>::empty());
        assert(ids.push(id)[0] == id);
        assert(ids.push(id).drop_first() =~= ids);
        assert(exclude_params(ids.push(id)) == "exclude="@ + id + seq!['&'] + exclude_params(ids));
        assert(exclude_params(ids.push(id)) =~= exclude_params(ids) + "exclude="@ + id + seq!['&']);
    } else {
        lemma_exclude_push(ids.drop_first(), id);
        assert(exclude_params(ids.push(id)) == "exclude="@ + ids[0] + seq!['&'] + exclude_params(
            ids.drop_first().push(id),
        )) by {
            assert(ids.push(id).len() != 0);
            assert(ids.push(id)[0] == ids[0]);
            assert(ids.push(id).drop_first() =~= ids.drop_first().push(id));
        }
        assert(exclude_params(ids) == "exclude="@ + ids[0] + seq!['&'] + exclude_params(
            ids.drop_first(),
        ));
        assert(exclude_params(ids.push(id)) =~= exclude_params(ids) + "exclude="@ + id + seq!['&']);
    }
}

/// The directory URL that lists the currently live sessions of a category.
pub fn game_list_url(category: GameCategory) -> (u: String)
    ensures
        u@ == "https://lichess.org/api/tv/"@ + category_name(category) + "?nb=30"@,
{
    let mut u = "https://lichess.org/api/tv/".to_owned();
    u.append(category.get_name());
    u.append("?nb=30");
    u
}

/// The directory URL that asks for one replacement of `for_which`, anchored
/// on it and excluding every given identifier.
pub fn replacement_url(category: GameCategory, for_which: &GameId, excludes: &Vec<GameId>) -> (u:
    String)
    ensures
        u@ == "https://lichess.org/games/"@ + category_name(category) + "/replacement/"@
            + for_which@ + seq!['?'] + exclude_params(excludes.deep_view()),
{
    let mut u = "https://lichess.org/games/".to_owned();
    u.append(category.get_name());
    u.append("/replacement/");
    u.append(for_which.0.as_str());
    push_char(&mut u, '?');
    let ghost base = u@;
    let mut i: usize = 0;
    proof {
        assert(excludes.deep_view().take(0) =~= Seq::<Seq<char>>::empty());
        assert(u@ =~= base + exclude_params(excludes.deep_view().take(0)));
    }
    while i < excludes.len()
        invariant
            i <= excludes@.len(),
            u@ == base + exclude_params(excludes.deep_view().take(i as int)),
        decreases excludes@.len() - i,
    {
        let ghost pre = excludes.deep_view().take(i as int);
        u.append("exclude=");
        u.append(excludes[i].0.as_str());
        push_char(&mut u, '&');
        proof {
            assert(excludes.deep_view().take(i as int + 1) =~= pre.push(
                excludes@[i as int].0@,
            ));
            lemma_exclude_push(pre, excludes@[i as int].0@);
            assert(u@ =~= base + exclude_params(excludes.deep_view().take(i as int + 1)));
        }
        i = i + 1;
    }
    proof {
        assert(excludes.deep_view().take(excludes@.len() as int) =~= excludes.deep_view());
        assert(u@ =~= "https://lichess.org/games/"@ + category_name(category) + "/replacement/"@
            + for_which@ + seq!['?'] + exclude_params(excludes.deep_view()));
    }
    u
}

/// A left-to-right scan of `s`: `cur` is the line being read, `acc` the
/// non-empty lines already finished.  A newline finishes the current line,
/// keeping it only if it is non-empty, and so does the end of the input.
pub open spec fn scan_lines(s: Seq<char>, cur: Seq<char>, acc: Seq<Seq<char>>) -> Seq<Seq<char>>
    decreases s.len(),
{
    if s.len() == 0 {
        if cur.len() == 0 {
            acc
        } else {
            acc.push(cur)
        }
    } else if s[0] == '\n' {
        scan_lines(
            s.drop_first(),
            Seq::empty(),
            if cur.len() == 0 {
                acc
            } else {
                acc.push(cur)
            },
        )
    } else {
        scan_lines(s.drop_first(), cur.push(s[0]), acc)
    }
}

/// The non-empty lines of a newline-delimited text, in order.
pub open spec fn nonempty_lines(s: Seq<char>) -> Seq<Seq<char>> {
    scan_lines(s, Seq::empty(), Seq::empty())
}

/// Splits a newline-delimited directory response into its non-empty lines,
/// one record each, in order.
pub fn split_ndjson_lines(text: &str) -> (r: Vec<String>)
    ensures
        r.deep_view() == nonempty_lines(text@),
{
    let n = text.unicode_len();
    let mut acc: Vec<String> = Vec::new();
    let mut cur = String::new();
    let mut i: usize = 0;
    proof {
        assert(text@.skip(0) =~= text@);
        assert(acc.deep_view() =~= Seq::<Seq<char>>::empty());
    }
    while i < n
        invariant
            n == text@.len(),
            i <= n,
            scan_lines(text@.skip(i as int), cur@, acc.deep_view()) == nonempty_lines(text@),
        decreases n - i,
    {
        let c = text.get_char(i);
        let ghost rem = text@.skip(i as int);
        proof {
            assert(rem[0] == text@[i as int]);
            assert(rem.drop_first() =~= text@.skip(i as int + 1));
        }
        if c == '\n' {
            let finished = cur;
            cur = String::new();
            if !finished.as_str().is_empty() {
                let ghost prev = acc.deep_view();
                let ghost line = finished@;
                acc.push(finished);
                proof {
                    assert(acc.deep_view() =~~= prev.push(line));
                }
            }
        } else {
            push_char(&mut cur, c);
        }
        i = i + 1;
    }
    proof {
        assert(text@.skip(n as int) =~= Seq::<char>::empty());
    }
    if !cur.as_str().is_empty() {
        let ghost prev = acc.deep_view();
        let ghost line = cur@;
        acc.push(cur);
        proof {
            assert(acc.deep_view() =~~= prev.push(line));
        }
    }
    acc
}

} // verus!
