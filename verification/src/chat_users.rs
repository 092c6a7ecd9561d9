//! The "online users" text shown beside the chat log.
use vstd::prelude::*;

use crate::text::{
    append_vec, chars_of, contains, contains_seq, ends_with, ends_with_seq, eq_vec, join_seq,
    owned, push_joined, remove_all, remove_all_vec, string_views, to_string, trim_seq, trim_vec,
    vec_views,
};

verus! {

/// Heading of the online users list.
pub open spec fn users_header() -> Seq<char> {
    "Online Users:\n───────────\n"@
}

/// The users list when nobody is online.
pub open spec fn no_users_text() -> Seq<char> {
    "Online Users:\n───────────\n(no users)\n"@
}

/// The users list showing `users`, one per line.
pub open spec fn users_text(users: Seq<Seq<char>>) -> Seq<char> {
    if users.len() == 0 {
        no_users_text()
    } else {
        users_header() + join_seq(users, seq!['\n']) + seq!['\n']
    }
}

/// The users list after adding `user`, and whether the user was appended.
pub open spec fn user_added(list: Seq<char>, user: Seq<char>) -> (Seq<char>, bool) {
    let base = if contains_seq(list, "(no users)"@) {
        users_header()
    } else {
        list
    };
    if !contains_seq(base, seq!['\n'] + user + seq!['\n']) && !ends_with_seq(base, user) {
        (base + user + seq!['\n'], true)
    } else {
        (base, false)
    }
}

/// The users list after removing `user`.
pub open spec fn user_removed(list: Seq<char>, user: Seq<char>) -> Seq<char> {
    let rest = remove_all(remove_all(list, user + seq!['\n']), user);
    if trim_seq(rest) == "Online Users:\n───────────"@ {
        no_users_text()
    } else {
        rest
    }
}

/// The users list text for `users`.
pub fn users_list_text(users: &[String]) -> (r: String)
    ensures
        r@ == users_text(string_views(users@)),
{
    if users.len() == 0 {
        return owned("Online Users:\n───────────\n(no users)\n");
    }
    let mut lines: Vec<Vec<char>> = Vec::new();
    let mut i: usize = 0;
    while i < users.len()
        invariant
            i <= users.len(),
            vec_views(lines@) == string_views(users@.take(i as int)),
        decreases users.len() - i,
    {
        let ghost before = vec_views(lines@);
        lines.push(chars_of(users[i].as_str()));
        assert(vec_views(lines@) =~= before.push(users@[i as int]@));
        assert(string_views(users@.take(i + 1)) =~= string_views(users@.take(i as int)).push(
            users@[i as int]@,
        ));
        i = i + 1;
    }
    assert(users@.take(users.len() as int) =~= users@);
    let mut out = chars_of("Online Users:\n───────────\n");
    let sep = chars_of("\n");
    proof {
        reveal_strlit("\n");
    }
    assert(sep@ =~= seq!['\n']);
    let ghost head = out@;
    push_joined(&mut out, &lines, &sep);
    out.push('\n');
    assert(out@ =~= head + join_seq(string_views(users@), seq!['\n']) + seq!['\n']);
    to_string(&out)
}

/// The users list after adding `user`, and whether it was appended.
pub fn list_with_user(list: &str, user: &str) -> (r: (String, bool))
    ensures
        r.0@ == user_added(list@, user@).0,
        r.1 == user_added(list@, user@).1,
{
    let mut current = owned(list);
    let l = chars_of(list);
    if contains(&l, &chars_of("(no users)")) {
        current = owned("Online Users:\n───────────\n");
    }
    let base = chars_of(current.as_str());
    let u = chars_of(user);
    let mut pat: Vec<char> = Vec::new();
    pat.push('\n');
    append_vec(&mut pat, &u);
    pat.push('\n');
    assert(pat@ =~= seq!['\n'] + user@ + seq!['\n']);
    if !contains(&base, &pat) && !ends_with(&base, &u) {
        let mut out = base;
        append_vec(&mut out, &u);
        out.push('\n');
        assert(out@ =~= current@ + user@ + seq!['\n']);
        (to_string(&out), true)
    } else {
        (current, false)
    }
}

/// The users list after removing `user`.
pub fn list_without_user(list: &str, user: &str) -> (r: String)
    ensures
        r@ == user_removed(list@, user@),
{
    let l = chars_of(list);
    let u = chars_of(user);
    let mut line: Vec<char> = Vec::new();
    append_vec(&mut line, &u);
    line.push('\n');
    assert(line@ =~= user@ + seq!['\n']);
    let once = remove_all_vec(&l, &line);
    let rest = remove_all_vec(&once, &u);
    let trimmed = trim_vec(&rest);
    if eq_vec(&trimmed, &chars_of("Online Users:\n───────────")) {
        owned("Online Users:\n───────────\n(no users)\n")
    } else {
        to_string(&rest)
    }
}

/// Adding a user to a users list that ends with a line break (or shows
/// nobody) lists the user: on a line of its own, or at the end of the list.
pub proof fn added_user_is_listed(list: Seq<char>, user: Seq<char>)
    requires
        ends_with_seq(list, seq!['\n']) || contains_seq(list, "(no users)"@),
    ensures
        contains_seq(user_added(list, user).0, seq!['\n'] + user + seq!['\n']) || ends_with_seq(
            user_added(list, user).0,
            user,
        ),
{
    reveal_strlit("Online Users:\n───────────\n");
    let base = if contains_seq(list, "(no users)"@) {
        users_header()
    } else {
        list
    };
    assert(base.len() > 0 && base.last() == '\n') by {
        if !contains_seq(list, "(no users)"@) {
            assert(list.subrange(list.len() - 1, list.len() as int) == seq!['\n']);
            assert(list.subrange(list.len() - 1, list.len() as int)[0] == list.last());
        }
    }
    let p = seq!['\n'] + user + seq!['\n'];
    if !contains_seq(base, p) && !ends_with_seq(base, user) {
        let r = base + user + seq!['\n'];
        let i = base.len() - 1;
        assert(r.subrange(i, i + p.len()) =~= p);
        assert(crate::text::occurs_at(r, p, i));
    }
}

} // verus!
