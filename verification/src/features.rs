use crate::radio::RadioOptionValue;
use crate::strutil::{
    chars_of, replace_char, spec_joined, spec_replace, string_from_chars, views_of,
};
use crate::tools::ToolAvailability;
use vstd::prelude::*;
use vstd::string::StringExecFns;

verus! {

/// The tool used to fetch a project skeleton over the network; each variant is
/// selectable only when its executable answered the availability probe.
#[derive(Clone, Copy, Debug, PartialEq, Eq, Structural)]
pub enum DownloadTool {
    Curl,
    Wget,
}

impl Default for DownloadTool {
    fn default() -> (r: Self)
        ensures
            r == DownloadTool::Curl,
    {
        DownloadTool::Curl
    }
}

impl DownloadTool {
    /// The executable this tool is invoked as.
    pub open spec fn spec_exe(self) -> Seq<char> {
        match self {
            DownloadTool::Curl => "curl"@,
            DownloadTool::Wget => "wget"@,
        }
    }

    /// The executable this tool is invoked as.
    pub fn exe(&self) -> (r: String)
        ensures
            r@ == self.spec_exe(),
    {
        match self {
            DownloadTool::Curl => "curl".to_owned(),
            DownloadTool::Wget => "wget".to_owned(),
        }
    }
}

impl RadioOptionValue for DownloadTool {
    open spec fn spec_all() -> Seq<DownloadTool> {
        seq![DownloadTool::Curl, DownloadTool::Wget]
    }

    open spec fn spec_default() -> DownloadTool {
        DownloadTool::Curl
    }

    open spec fn spec_selectable(self, tools: Map<Seq<char>, bool>) -> bool {
        tools.contains_key(self.spec_exe()) && tools[self.spec_exe()]
    }

    open spec fn spec_label(self) -> Seq<char> {
        match self {
            DownloadTool::Curl => "curl"@,
            DownloadTool::Wget => "wget"@,
        }
    }

    fn all_values() -> (r: Vec<DownloadTool>) {
        let mut v: Vec<DownloadTool> = Vec::new();
        v.push(DownloadTool::Curl);
        v.push(DownloadTool::Wget);
        proof {
            assert(v@ =~= Self::spec_all());
        }
        v
    }

    fn default_value() -> (r: DownloadTool) {
        DownloadTool::Curl
    }

    fn selectable(&self, tools: &ToolAvailability) -> (r: bool) {
        tools.lookup(&self.exe())
    }

    fn label(&self) -> (r: String) {
        match self {
            DownloadTool::Curl => "curl".to_owned(),
            DownloadTool::Wget => "wget".to_owned(),
        }
    }

    fn same(&self, other: &DownloadTool) -> (r: bool) {
        *self == *other
    }
}

/// The download tool the wizard uses: the first available one, trying the
/// default first; `None` when no download tool answered its probe.
pub fn preferred_download_tool(tools: &ToolAvailability) -> (r: Option<DownloadTool>)
    ensures
        r == if DownloadTool::Curl.spec_selectable(tools@) {
            Some(DownloadTool::Curl)
        } else if DownloadTool::Wget.spec_selectable(tools@) {
            Some(DownloadTool::Wget)
        } else {
            None::<DownloadTool>
        },
{
    if DownloadTool::Curl.selectable(tools) {
        Some(DownloadTool::Curl)
    } else if DownloadTool::Wget.selectable(tools) {
        Some(DownloadTool::Wget)
    } else {
        None
    }
}

/// The tool used to unpack a fetched archive; each variant is selectable only
/// when its executable answered the availability probe.
#[derive(Clone, Copy, Debug, PartialEq, Eq, Structural)]
pub enum UnzipTool {
    Unzip,
    SevenZ,
    Tar,
}

impl UnzipTool {
    /// The executable this tool is invoked as.
    pub open spec fn spec_exe(self) -> Seq<char> {
        match self {
            UnzipTool::Unzip => "unzip"@,
            UnzipTool::SevenZ => "7z"@,
            UnzipTool::Tar => "tar"@,
        }
    }

    /// The executable this tool is invoked as.
    pub fn exe(&self) -> (r: String)
        ensures
            r@ == self.spec_exe(),
    {
        match self {
            UnzipTool::Unzip => "unzip".to_owned(),
            UnzipTool::SevenZ => "7z".to_owned(),
            UnzipTool::Tar => "tar".to_owned(),
        }
    }

    /// Whether this tool answered its availability probe.
    pub open spec fn spec_available(self, tools: Map<Seq<char>, bool>) -> bool {
        tools.contains_key(self.spec_exe()) && tools[self.spec_exe()]
    }

    /// Whether this tool answered its availability probe.
    pub fn available(&self, tools: &ToolAvailability) -> (r: bool)
        ensures
            r == self.spec_available(tools@),
    {
        tools.lookup(&self.exe())
    }
}

/// The unpacking tool the wizard uses: the first available one, in the fixed
/// preference order; `None` when no unpacking tool answered its probe.
pub fn preferred_unzip_tool(tools: &ToolAvailability) -> (r: Option<UnzipTool>)
    ensures
        r == if UnzipTool::Unzip.spec_available(tools@) {
            Some(UnzipTool::Unzip)
        } else if UnzipTool::SevenZ.spec_available(tools@) {
            Some(UnzipTool::SevenZ)
        } else if UnzipTool::Tar.spec_available(tools@) {
            Some(UnzipTool::Tar)
        } else {
            None::<UnzipTool>
        },
{
    if UnzipTool::Unzip.available(tools) {
        Some(UnzipTool::Unzip)
    } else if UnzipTool::SevenZ.available(tools) {
        Some(UnzipTool::SevenZ)
    } else if UnzipTool::Tar.available(tools) {
        Some(UnzipTool::Tar)
    } else {
        None
    }
}

/// One request parameter rendered as `key=value`.
pub open spec fn spec_pair_text(p: (String, String)) -> Seq<char> {
    p.0@ + "="@ + p.1@
}

/// All request parameters rendered as `key=value`.
pub open spec fn spec_pairs_text(ps: Seq<(String, String)>) -> Seq<Seq<char>> {
    ps.map_values(|p: (String, String)| p.0@ + "="@ + p.1@)
}

/// The body of a form request: `key=value` pairs joined by `&`.
pub open spec fn spec_form_data(ps: Seq<(String, String)>) -> Seq<char> {
    spec_joined(spec_pairs_text(ps), "&"@)
}

/// Render request parameters as a form body: `key=value` pairs joined by `&`.
pub fn form_data(params: &Vec<(String, String)>) -> (r: String)
    ensures
        r@ == spec_form_data(params@),
{
    let mut parts: Vec<String> = Vec::new();
    let mut i: usize = 0;
    while i < params.len()
        invariant
            i <= params@.len(),
            views_of(parts@) == spec_pairs_text(params@.take(i as int)),
        decreases params@.len() - i,
    {
        let ghost prefix = spec_pairs_text(params@.take(i as int));
        let mut t = params[i].0.clone();
        t.append("=");
        t.append(params[i].1.as_str());
        parts.push(t);
        proof {
            assert(views_of(parts@) =~= prefix.push(spec_pair_text(params@[i as int])));
            assert(spec_pairs_text(params@.take(i + 1)) =~= prefix.push(
                spec_pair_text(params@[i as int]),
            ));
        }
        i += 1;
    }
    proof {
        assert(params@.take(params@.len() as int) =~= params@);
    }
    crate::strutil::join_strings(&parts, "&")
}

/// Whether the character is an ASCII letter.
pub open spec fn spec_is_ascii_letter(c: char) -> bool {
    ('a' <= c && c <= 'z') || ('A' <= c && c <= 'Z')
}

/// Whether the character is an ASCII letter.
pub fn is_ascii_letter(c: char) -> (r: bool)
    ensures
        r == spec_is_ascii_letter(c),
{
    ('a' <= c && c <= 'z') || ('A' <= c && c <= 'Z')
}

/// An ASCII upper-case letter turned lower case; any other character as it is.
pub open spec fn spec_lower_ascii(c: char) -> char {
    if 'A' <= c <= 'Z' {
        ((c as u32) + 32) as char
    } else {
        c
    }
}

/// An ASCII upper-case letter turned lower case; any other character as it is.
pub fn ascii_lower(c: char) -> (r: char)
    ensures
        r == spec_lower_ascii(c),
{
    match c {
        'A' => 'a',
        'B' => 'b',
        'C' => 'c',
        'D' => 'd',
        'E' => 'e',
        'F' => 'f',
        'G' => 'g',
        'H' => 'h',
        'I' => 'i',
        'J' => 'j',
        'K' => 'k',
        'L' => 'l',
        'M' => 'm',
        'N' => 'n',
        'O' => 'o',
        'P' => 'p',
        'Q' => 'q',
        'R' => 'r',
        'S' => 's',
        'T' => 't',
        'U' => 'u',
        'V' => 'v',
        'W' => 'w',
        'X' => 'x',
        'Y' => 'y',
        'Z' => 'z',
        _ => c,
    }
}

/// A path spelled for a POSIX-style shell on Windows: backslashes become
/// slashes, and a leading ASCII drive letter such as `C:` becomes `/c`.
pub open spec fn spec_path_converter(s: Seq<char>) -> Seq<char> {
    let slashed = spec_replace(s, '\\', '/');
    if slashed.len() >= 2 && slashed[1] == ':' && spec_is_ascii_letter(slashed[0]) {
        seq!['/', spec_lower_ascii(slashed[0])] + slashed.subrange(2, slashed.len() as int)
    } else {
        slashed
    }
}

/// A path spelled for a POSIX-style shell on Windows: backslashes become
/// slashes, and a leading ASCII drive letter such as `C:` becomes `/c`.
pub fn path_converter(path: &str) -> (r: String)
    ensures
        r@ == spec_path_converter(path@),
{
    let slashed = replace_char(path, '\\', '/');
    let cs = chars_of(slashed.as_str());
    if cs.len() >= 2 && cs[1] == ':' && is_ascii_letter(cs[0]) {
        let mut out: Vec<char> = Vec::new();
        out.push('/');
        out.push(ascii_lower(cs[0]));
        let mut i: usize = 2;
        while i < cs.len()
            invariant
                2 <= i <= cs@.len(),
                cs@.len() >= 2,
                out@ == seq!['/', spec_lower_ascii(cs@[0])] + cs@.subrange(2, i as int),
            decreases cs@.len() - i,
        {
            out.push(cs[i]);
            proof {
                assert(cs@.subrange(2, i + 1) =~= cs@.subrange(2, i as int).push(cs@[i as int]));
                assert(out@ =~= seq!['/', spec_lower_ascii(cs@[0])] + cs@.subrange(2, i + 1));
            }
            i += 1;
        }
        string_from_chars(&out)
    } else {
        slashed
    }
}

} // verus!
