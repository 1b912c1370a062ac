use vstd::prelude::*;
use vstd::string::to_string_from_display_ensures_for_str;

verus! {

/// One line of an interactive session, read as a command.
pub enum Command {
    /// `GET <key>`: print the value under the key, or that there is none.
    Get(String),
    /// `PUT <key> <value>`: store the value's bytes under the key.
    Put(String, String),
    /// `DEL <key>`: erase the key.
    Del(String),
    /// `EXIT`: end the session.
    Exit,
    /// Anything else, including a command that lacks its arguments.
    Unknown,
}

pub open spec fn get_word() -> Seq<char> {
    seq!['G', 'E', 'T']
}

pub open spec fn put_word() -> Seq<char> {
    seq!['P', 'U', 'T']
}

pub open spec fn del_word() -> Seq<char> {
    seq!['D', 'E', 'L']
}

pub open spec fn exit_word() -> Seq<char> {
    seq!['E', 'X', 'I', 'T']
}

/// Whether `c` is the command that the words `ws` of a line spell. Words past
/// those a command takes are ignored.
pub open spec fn parsed(ws: Seq<Seq<char>>, c: Command) -> bool {
    if ws.len() >= 2 && ws[0] == get_word() {
        c is Get && c->Get_0@ == ws[1]
    } else if ws.len() >= 3 && ws[0] == put_word() {
        c is Put && c->Put_0@ == ws[1] && c->Put_1@ == ws[2]
    } else if ws.len() >= 2 && ws[0] == del_word() {
        c is Del && c->Del_0@ == ws[1]
    } else if ws.len() >= 1 && ws[0] == exit_word() {
        c is Exit
    } else {
        c is Unknown
    }
}

fn is_word(w: &String, lit: &str) -> (r: bool)
    ensures
        r == (w@ == lit@),
{
    broadcast use to_string_from_display_ensures_for_str;

    let l = lit.to_string();
    *w == l
}

/// Reads the words of one line as a command.
pub fn parse_command(words: &Vec<String>) -> (c: Command)
    ensures
        parsed(words@.map_values(|w: String| w@), c),
{
    let ghost ws = words@.map_values(|w: String| w@);
    proof {
        reveal_strlit("GET");
        reveal_strlit("PUT");
        reveal_strlit("DEL");
        reveal_strlit("EXIT");
        assert("GET"@ =~= get_word());
        assert("PUT"@ =~= put_word());
        assert("DEL"@ =~= del_word());
        assert("EXIT"@ =~= exit_word());
    }
    let n = words.len();
    if n == 0 {
        return Command::Unknown;
    }
    let first = &words[0];
    if n >= 2 && is_word(first, "GET") {
        Command::Get(words[1].clone())
    } else if n >= 3 && is_word(first, "PUT") {
        Command::Put(words[1].clone(), words[2].clone())
    } else if n >= 2 && is_word(first, "DEL") {
        Command::Del(words[1].clone())
    } else if is_word(first, "EXIT") {
        Command::Exit
    } else {
        Command::Unknown
    }
}

} // verus!
