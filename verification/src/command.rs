//! The two invocations of the external tool, and how a process ended.

use vstd::prelude::*;
use vstd::string::*;

verus! {

/// The external tool that searches and downloads.
pub const PROGRAM: &'static str = "yt-dlp";

/// A program and the arguments to start it with.
#[derive(Debug)]
pub struct Command {
    pub program: String,
    pub args: Vec<String>,
}

pub ghost struct CommandView {
    pub program: Seq<char>,
    pub args: Seq<Seq<char>>,
}

/// Each string as its characters.
pub open spec fn texts(strings: Seq<String>) -> Seq<Seq<char>> {
    strings.map_values(|s: String| s@)
}

impl View for Command {
    type V = CommandView;

    open spec fn view(&self) -> CommandView {
        CommandView { program: self.program@, args: texts(self.args@) }
    }
}

/// How a process ended: whether it succeeded, the exit code if it had one,
/// and the platform's description of the status.
#[derive(Debug)]
pub struct ProcessExit {
    pub success: bool,
    pub code: Option<i32>,
    pub description: String,
}

pub ghost struct ExitView {
    pub success: bool,
    pub code: Option<int>,
    pub description: Seq<char>,
}

impl View for ProcessExit {
    type V = ExitView;

    open spec fn view(&self) -> ExitView {
        ExitView {
            success: self.success,
            code: match self.code {
                Some(c) => Some(c as int),
                None => None,
            },
            description: self.description@,
        }
    }
}

/// The search for `query`: the ten best matches, as one JSON record per
/// line, with nothing downloaded.
pub open spec fn search_command_for(query: Seq<char>) -> CommandView {
    CommandView {
        program: PROGRAM@,
        args: seq!["ytsearch10:"@ + query, "--dump-json"@, "--skip-download"@],
    }
}

/// The canonical address of the media with identifier `id`.
pub open spec fn media_url_of(id: Seq<char>) -> Seq<char> {
    "https://youtube.com/watch?v="@ + id
}

/// The download of `url` as 192K MP3 audio to `template`, to which the tool
/// adds the extension.
pub open spec fn fetch_command_for(template: Seq<char>, url: Seq<char>) -> CommandView {
    CommandView {
        program: PROGRAM@,
        args: seq![
            "-f"@,
            "bestaudio/best"@,
            "--extract-audio"@,
            "--audio-format"@,
            "mp3"@,
            "--audio-quality"@,
            "192K"@,
            "-o"@,
            template,
            url,
        ],
    }
}

/// Adds `arg` to `args`.
fn push_arg(args: &mut Vec<String>, arg: &str)
    ensures
        texts(final(args)@) == texts(old(args)@).push(arg@),
{
    args.push(String::from_str(arg));
    assert(texts(args@) =~= texts(old(args)@).push(arg@));
}

/// The command that searches for `query`.
pub fn search_command(query: &str) -> (command: Command)
    ensures
        command@ == search_command_for(query@),
{
    let mut target = String::from_str("ytsearch10:");
    target.append(query);
    let mut args: Vec<String> = Vec::new();
    assert(texts(args@) =~= Seq::<Seq<char>>::empty());
    push_arg(&mut args, target.as_str());
    push_arg(&mut args, "--dump-json");
    push_arg(&mut args, "--skip-download");
    assert(texts(args@) =~= search_command_for(query@).args);
    Command { program: String::from_str(PROGRAM), args }
}

/// The canonical address of the media with identifier `id`.
pub fn media_url(id: &str) -> (url: String)
    ensures
        url@ == media_url_of(id@),
{
    let mut url = String::from_str("https://youtube.com/watch?v=");
    url.append(id);
    url
}

/// The command that downloads `url` to `template`.
pub fn fetch_command(template: &str, url: &str) -> (command: Command)
    ensures
        command@ == fetch_command_for(template@, url@),
{
    let mut args: Vec<String> = Vec::new();
    assert(texts(args@) =~= Seq::<Seq<char>>::empty());
    push_arg(&mut args, "-f");
    push_arg(&mut args, "bestaudio/best");
    push_arg(&mut args, "--extract-audio");
    push_arg(&mut args, "--audio-format");
    push_arg(&mut args, "mp3");
    push_arg(&mut args, "--audio-quality");
    push_arg(&mut args, "192K");
    push_arg(&mut args, "-o");
    push_arg(&mut args, template);
    push_arg(&mut args, url);
    assert(texts(args@) =~= fetch_command_for(template@, url@).args);
    Command { program: String::from_str(PROGRAM), args }
}

} // verus!
