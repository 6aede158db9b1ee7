//! Rendering of catalogs and scan results into the output formats the
//! command line offers.  Every formatter builds its text exactly as stated
//! by the spec functions beside it.

use vstd::prelude::*;

use crate::defs::{BuildToolDef, BuildToolDefs, DefModel};
use crate::meister::{spec_relative, spec_strippable, try_relative, BuildTool, BuildTools};
use crate::Result;

pub use crate::cli::Format;

verus! {

/// The items joined with the separator between them.
pub open spec fn joined(items: Seq<Seq<char>>, sep: Seq<char>) -> Seq<char>
    decreases items.len(),
{
    if items.len() == 0 {
        Seq::empty()
    } else if items.len() == 1 {
        items[0]
    } else {
        joined(items.drop_last(), sep) + sep + items.last()
    }
}

/// Joins the items with the separator between them.
fn join_strings(items: &Vec<String>, sep: &str) -> (r: String)
    ensures
        r@ == joined(items.deep_view(), sep@),
{
    let mut acc = String::new();
    let n = items.len();
    let mut i: usize = 0;
    proof {
        assert(items.deep_view().subrange(0, 0) =~= Seq::<Seq<char>>::empty());
    }
    while i < n
        invariant
            n == items@.len(),
            items.deep_view().len() == n,
            0 <= i <= n,
            acc@ == joined(items.deep_view().subrange(0, i as int), sep@),
        decreases n - i,
    {
        let ghost prefix = items.deep_view().subrange(0, i as int);
        let ghost next = items.deep_view().subrange(0, i as int + 1);
        if i > 0 {
            acc.append(sep);
        }
        acc.append(items[i].as_str());
        proof {
            assert(next.drop_last() =~= prefix);
            assert(next.last() == items.deep_view()[i as int]);
            if i == 0 {
                assert(next.len() == 1);
                assert(joined(next, sep@) == next[0]);
            }
        }
        i = i + 1;
    }
    proof {
        assert(items.deep_view().subrange(0, n as int) =~= items.deep_view());
    }
    acc
}

/// The separator that precedes an entry: nothing before the first, a comma
/// before every later one.
pub open spec fn comma_unless_first(first: bool) -> Seq<char> {
    if first {
        Seq::empty()
    } else {
        ","@
    }
}

// ---------------------------------------------------------------- csv

/// One CSV line of a definition: name, marker pattern, URL.
pub open spec fn csv_def_line(d: DefModel, f: Seq<char>) -> Seq<char> {
    d.name + ","@ + f + ","@ + d.url
}

/// A definition in CSV: one line per marker pattern.
pub open spec fn csv_def(d: DefModel) -> Seq<char> {
    joined(d.build_files.map_values(|f: Seq<char>| csv_def_line(d, f)), "\n"@)
}

/// One detected tool in CSV; a tool whose path does not lie under the base
/// is passed over.
pub open spec fn csv_file_line(base: Seq<char>, bt: BuildTool) -> Seq<char> {
    if spec_strippable(base, bt.path@) {
        base + ","@ + spec_relative(base, bt.path@) + ","@ + bt.def.name@ + "\n"@
    } else {
        Seq::empty()
    }
}

/// A scan result in CSV: one line per detected tool that lies under the base.
pub open spec fn csv_files(base: Seq<char>, tools: Seq<BuildTool>) -> Seq<char>
    decreases tools.len(),
{
    if tools.len() == 0 {
        Seq::empty()
    } else {
        csv_files(base, tools.drop_last()) + csv_file_line(base, tools.last())
    }
}

/// Renders catalogs and results as comma-separated lines.
#[derive(Debug)]
pub struct CsvFormatter {}

impl CsvFormatter {
    /// This formatter's name.
    pub fn name(&self) -> (r: &'static str)
        ensures
            r@ == "csv"@,
    {
        "csv"
    }

    /// CSV has no catalog header.
    pub fn header_defs(&self) -> (r: Option<String>)
        ensures
            r is None,
    {
        None
    }

    /// CSV has no catalog footer.
    pub fn footer_defs(&self) -> (r: Option<String>)
        ensures
            r is None,
    {
        None
    }

    /// One definition: a `name,pattern,url` line per marker pattern.
    pub fn format_def(&self, def: &BuildToolDef, _first: bool) -> (r: Result<String>)
        ensures
            r is Ok,
            r->Ok_0@ == csv_def(def@),
    {
        let mut lines: Vec<String> = Vec::new();
        let n = def.build_files.len();
        let mut i: usize = 0;
        while i < n
            invariant
                n == def.build_files@.len(),
                def@.build_files.len() == n,
                0 <= i <= n,
                lines@.len() == i,
                forall|k: int|
                    0 <= k < i ==> (#[trigger] lines@[k])@ == csv_def_line(
                        def@,
                        def@.build_files[k],
                    ),
            decreases n - i,
        {
            let mut line = def.name.clone();
            line.append(",");
            line.append(def.build_files[i].as_str());
            line.append(",");
            line.append(def.url.as_str());
            assert(line@ == csv_def_line(def@, def@.build_files[i as int]));
            lines.push(line);
            i = i + 1;
        }
        proof {
            assert(lines.deep_view() =~= def@.build_files.map_values(
                |f: Seq<char>| csv_def_line(def@, f),
            ));
        }
        Ok(join_strings(&lines, "\n"))
    }

    /// CSV has no result header.
    pub fn header_files(&self) -> (r: Option<String>)
        ensures
            r is None,
    {
        None
    }

    /// CSV has no result footer.
    pub fn footer_files(&self) -> (r: Option<String>)
        ensures
            r is None,
    {
        None
    }

    /// One scan result: a `base,relative-path,name` line per detected tool
    /// that lies under the base.
    pub fn format_files(&self, tools: &BuildTools, _first: bool) -> (r: Result<String>)
        ensures
            r is Ok,
            r->Ok_0@ == csv_files(tools.base@, tools.tools@),
    {
        let mut acc = String::new();
        let n = tools.tools.len();
        let mut i: usize = 0;
        proof {
            assert(tools.tools@.subrange(0, 0) =~= Seq::<BuildTool>::empty());
        }
        while i < n
            invariant
                n == tools.tools@.len(),
                0 <= i <= n,
                acc@ == csv_files(tools.base@, tools.tools@.subrange(0, i as int)),
            decreases n - i,
        {
            let ghost next = tools.tools@.subrange(0, i as int + 1);
            proof {
                assert(next.drop_last() =~= tools.tools@.subrange(0, i as int));
                assert(next.last() == tools.tools@[i as int]);
            }
            let bt = &tools.tools[i];
            if let Some(rel) = try_relative(bt.path.as_str(), tools.base.as_str()) {
                acc.append(tools.base.as_str());
                acc.append(",");
                acc.append(rel.as_str());
                acc.append(",");
                acc.append(bt.def.name.as_str());
                acc.append("\n");
            }
            i = i + 1;
        }
        proof {
            assert(tools.tools@.subrange(0, n as int) =~= tools.tools@);
        }
        Ok(acc)
    }
}

// ---------------------------------------------------------------- default

/// One line of a definition in the plain format: `name: pattern`.
pub open spec fn default_def_line(d: DefModel, f: Seq<char>) -> Seq<char> {
    d.name + ": "@ + f
}

/// A definition in the plain format: one `name: pattern` line per marker
/// pattern.
pub open spec fn default_def(d: DefModel) -> Seq<char> {
    joined(d.build_files.map_values(|f: Seq<char>| default_def_line(d, f)), "\n"@)
}

/// One detected tool in the plain format; a tool whose path does not lie
/// under the base is passed over.
pub open spec fn default_file_line(base: Seq<char>, bt: BuildTool) -> Seq<char> {
    if spec_strippable(base, bt.path@) {
        "    "@ + spec_relative(base, bt.path@) + ": "@ + bt.def.name@ + "\n"@
    } else {
        Seq::empty()
    }
}

/// The tool lines of a scan result in the plain format.
pub open spec fn default_file_lines(base: Seq<char>, tools: Seq<BuildTool>) -> Seq<char>
    decreases tools.len(),
{
    if tools.len() == 0 {
        Seq::empty()
    } else {
        default_file_lines(base, tools.drop_last()) + default_file_line(base, tools.last())
    }
}

/// A scan result in the plain format: the base, then one indented line per
/// detected tool that lies under it.
pub open spec fn default_files(base: Seq<char>, tools: Seq<BuildTool>) -> Seq<char> {
    base + "\n"@ + default_file_lines(base, tools)
}

/// Renders catalogs and results as plain indented text.
#[derive(Debug)]
pub struct DefaultFormatter {}

impl DefaultFormatter {
    /// This formatter's name.
    pub fn name(&self) -> (r: &'static str)
        ensures
            r@ == "default"@,
    {
        "default"
    }

    /// The plain format has no catalog header.
    pub fn header_defs(&self) -> (r: Option<String>)
        ensures
            r is None,
    {
        None
    }

    /// The plain format has no catalog footer.
    pub fn footer_defs(&self) -> (r: Option<String>)
        ensures
            r is None,
    {
        None
    }

    /// One definition: a `name: pattern` line per marker pattern.
    pub fn format_def(&self, def: &BuildToolDef, _first: bool) -> (r: Result<String>)
        ensures
            r is Ok,
            r->Ok_0@ == default_def(def@),
    {
        let mut lines: Vec<String> = Vec::new();
        let n = def.build_files.len();
        let mut i: usize = 0;
        while i < n
            invariant
                n == def.build_files@.len(),
                def@.build_files.len() == n,
                0 <= i <= n,
                lines@.len() == i,
                forall|k: int|
                    0 <= k < i ==> (#[trigger] lines@[k])@ == default_def_line(
                        def@,
                        def@.build_files[k],
                    ),
            decreases n - i,
        {
            let mut line = def.name.clone();
            line.append(": ");
            line.append(def.build_files[i].as_str());
            assert(line@ == default_def_line(def@, def@.build_files[i as int]));
            lines.push(line);
            i = i + 1;
        }
        proof {
            assert(lines.deep_view() =~= def@.build_files.map_values(
                |f: Seq<char>| default_def_line(def@, f),
            ));
        }
        Ok(join_strings(&lines, "\n"))
    }

    /// The plain format has no result header.
    pub fn header_files(&self) -> (r: Option<String>)
        ensures
            r is None,
    {
        None
    }

    /// The plain format has no result footer.
    pub fn footer_files(&self) -> (r: Option<String>)
        ensures
            r is None,
    {
        None
    }

    /// One scan result: the base, then one `    path: name` line per
    /// detected tool that lies under it.
    pub fn format_files(&self, tools: &BuildTools, _first: bool) -> (r: Result<String>)
        ensures
            r is Ok,
            r->Ok_0@ == default_files(tools.base@, tools.tools@),
    {
        let mut acc = tools.base.clone();
        acc.append("\n");
        let n = tools.tools.len();
        let mut i: usize = 0;
        proof {
            assert(tools.tools@.subrange(0, 0) =~= Seq::<BuildTool>::empty());
        }
        while i < n
            invariant
                n == tools.tools@.len(),
                0 <= i <= n,
                acc@ == tools.base@ + "\n"@ + default_file_lines(
                    tools.base@,
                    tools.tools@.subrange(0, i as int),
                ),
            decreases n - i,
        {
            let ghost next = tools.tools@.subrange(0, i as int + 1);
            proof {
                assert(next.drop_last() =~= tools.tools@.subrange(0, i as int));
                assert(next.last() == tools.tools@[i as int]);
            }
            let bt = &tools.tools[i];
            if let Some(rel) = try_relative(bt.path.as_str(), tools.base.as_str()) {
                acc.append("    ");
                acc.append(rel.as_str());
                acc.append(": ");
                acc.append(bt.def.name.as_str());
                acc.append("\n");
            }
            i = i + 1;
        }
        proof {
            assert(tools.tools@.subrange(0, n as int) =~= tools.tools@);
        }
        Ok(acc)
    }
}

// ---------------------------------------------------------------- json

/// The items concatenated, with nothing between them.
pub open spec fn concatenated(items: Seq<Seq<char>>) -> Seq<char>
    decreases items.len(),
{
    if items.len() == 0 {
        Seq::empty()
    } else {
        concatenated(items.drop_last()) + items.last()
    }
}

/// A definition in JSON, preceded by a comma unless it is the first.
pub open spec fn json_def(d: DefModel, first: bool) -> Seq<char> {
    comma_unless_first(first) + "{\"name\":\""@ + d.name + "\",\"build-files\":["@ + joined(
        d.build_files.map_values(|f: Seq<char>| "\""@ + f + "\""@),
        ","@,
    ) + "],\"url\":\""@ + d.url + "\"}"@
}

/// One detected tool as a JSON object: its path relative to the base where
/// it lies under it, unchanged otherwise.
pub open spec fn json_tool_entry(base: Seq<char>, bt: BuildTool) -> Seq<char> {
    "{\"path\":\""@ + (if spec_strippable(base, bt.path@) {
        spec_relative(base, bt.path@)
    } else {
        bt.path@
    }) + "\",\"tool-name\":\""@ + bt.def.name@ + "\"}"@
}

/// The tool objects of one scan result, one line each, comma-separated.
pub open spec fn json_tool_lines(base: Seq<char>, tools: Seq<BuildTool>) -> Seq<char>
    decreases tools.len(),
{
    if tools.len() == 0 {
        Seq::empty()
    } else {
        json_tool_lines(base, tools.drop_last()) + comma_unless_first(tools.len() == 1)
            + json_tool_entry(base, tools.last()) + "\n"@
    }
}

/// A scan result in JSON, preceded by a comma unless it is the first.
pub open spec fn json_files(base: Seq<char>, tools: Seq<BuildTool>, first: bool) -> Seq<char> {
    comma_unless_first(first) + "{\"base\":\""@ + base + "\",\"build-tools\":["@ + "\n"@
        + json_tool_lines(base, tools) + "]}"@ + "\n"@
}

/// Renders catalogs and results as JSON.
#[derive(Debug)]
pub struct JsonFormatter {}

impl JsonFormatter {
    /// This formatter's name.
    pub fn name(&self) -> (r: &'static str)
        ensures
            r@ == "json"@,
    {
        "json"
    }

    /// The JSON catalog opens a list.
    pub fn header_defs(&self) -> (r: Option<String>)
        ensures
            r matches Some(s) && s@ == "["@,
    {
        Some("[".to_owned())
    }

    /// The JSON catalog closes its list.
    pub fn footer_defs(&self) -> (r: Option<String>)
        ensures
            r matches Some(s) && s@ == "]"@,
    {
        Some("]".to_owned())
    }

    /// One definition as a JSON object.
    pub fn format_def(&self, def: &BuildToolDef, first: bool) -> (r: Result<String>)
        ensures
            r is Ok,
            r->Ok_0@ == json_def(def@, first),
    {
        let mut quoted: Vec<String> = Vec::new();
        let n = def.build_files.len();
        let mut i: usize = 0;
        while i < n
            invariant
                n == def.build_files@.len(),
                def@.build_files.len() == n,
                0 <= i <= n,
                quoted@.len() == i,
                forall|k: int|
                    0 <= k < i ==> (#[trigger] quoted@[k])@ == "\""@ + def@.build_files[k] + "\""@,
            decreases n - i,
        {
            let mut q = "\"".to_owned();
            q.append(def.build_files[i].as_str());
            q.append("\"");
            quoted.push(q);
            i = i + 1;
        }
        proof {
            assert(quoted.deep_view() =~= def@.build_files.map_values(
                |f: Seq<char>| "\""@ + f + "\""@,
            ));
        }
        let mut acc = if first {
            String::new()
        } else {
            ",".to_owned()
        };
        acc.append("{\"name\":\"");
        acc.append(def.name.as_str());
        acc.append("\",\"build-files\":[");
        let joined_files = join_strings(&quoted, ",");
        acc.append(joined_files.as_str());
        acc.append("],\"url\":\"");
        acc.append(def.url.as_str());
        acc.append("\"}");
        Ok(acc)
    }

    /// The JSON result list opens.
    pub fn header_files(&self) -> (r: Option<String>)
        ensures
            r matches Some(s) && s@ == "["@,
    {
        Some("[".to_owned())
    }

    /// The JSON result list closes.
    pub fn footer_files(&self) -> (r: Option<String>)
        ensures
            r matches Some(s) && s@ == "]"@,
    {
        Some("]".to_owned())
    }

    /// One scan result as a JSON object with one line per detected tool.
    pub fn format_files(&self, tools: &BuildTools, first: bool) -> (r: Result<String>)
        ensures
            r is Ok,
            r->Ok_0@ == json_files(tools.base@, tools.tools@, first),
    {
        let mut acc = if first {
            String::new()
        } else {
            ",".to_owned()
        };
        acc.append("{\"base\":\"");
        acc.append(tools.base.as_str());
        acc.append("\",\"build-tools\":[");
        acc.append("\n");
        let ghost head = acc@;
        proof {
            assert(head == comma_unless_first(first) + "{\"base\":\""@ + tools.base@
                + "\",\"build-tools\":["@ + "\n"@);
        }
        let n = tools.tools.len();
        let mut i: usize = 0;
        proof {
            assert(tools.tools@.subrange(0, 0) =~= Seq::<BuildTool>::empty());
        }
        while i < n
            invariant
                n == tools.tools@.len(),
                0 <= i <= n,
                acc@ == head + json_tool_lines(tools.base@, tools.tools@.subrange(0, i as int)),
            decreases n - i,
        {
            let ghost next = tools.tools@.subrange(0, i as int + 1);
            proof {
                assert(next.drop_last() =~= tools.tools@.subrange(0, i as int));
                assert(next.last() == tools.tools@[i as int]);
            }
            let bt = &tools.tools[i];
            if i != 0 {
                acc.append(",");
            }
            acc.append("{\"path\":\"");
            match try_relative(bt.path.as_str(), tools.base.as_str()) {
                Some(rel) => acc.append(rel.as_str()),
                None => acc.append(bt.path.as_str()),
            }
            acc.append("\",\"tool-name\":\"");
            acc.append(bt.def.name.as_str());
            acc.append("\"}");
            acc.append("\n");
            proof {
                assert(acc@ =~= head + json_tool_lines(tools.base@, next));
            }
            i = i + 1;
        }
        proof {
            assert(tools.tools@.subrange(0, n as int) =~= tools.tools@);
        }
        acc.append("]}");
        acc.append("\n");
        proof {
            assert(acc@ =~= json_files(tools.base@, tools.tools@, first));
        }
        Ok(acc)
    }
}

// ---------------------------------------------------------------- markdown

/// A definition in Markdown: a link line, then one list item per pattern.
pub open spec fn md_def(d: DefModel) -> Seq<char> {
    "- ["@ + d.name + "]("@ + d.url + ")\n  - "@ + joined(d.build_files, "\n  - "@)
}

/// One detected tool as a Markdown list entry; a tool whose path does not
/// lie under the base is passed over.
pub open spec fn md_file_line(base: Seq<char>, bt: BuildTool) -> Seq<char> {
    if spec_strippable(base, bt.path@) {
        "- "@ + bt.def.name@ + "\n  - "@ + base + "/"@ + spec_relative(base, bt.path@) + "\n"@
    } else {
        Seq::empty()
    }
}

/// A scan result in Markdown: one list entry per detected tool under the
/// base.
pub open spec fn md_files(base: Seq<char>, tools: Seq<BuildTool>) -> Seq<char>
    decreases tools.len(),
{
    if tools.len() == 0 {
        Seq::empty()
    } else {
        md_files(base, tools.drop_last()) + md_file_line(base, tools.last())
    }
}

/// Renders catalogs and results as Markdown lists.
#[derive(Debug)]
pub struct MarkdownFormatter {}

impl MarkdownFormatter {
    /// This formatter's name.
    pub fn name(&self) -> (r: &'static str)
        ensures
            r@ == "markdown"@,
    {
        "markdown"
    }

    /// Markdown has no catalog header.
    pub fn header_defs(&self) -> (r: Option<String>)
        ensures
            r is None,
    {
        None
    }

    /// Markdown has no catalog footer.
    pub fn footer_defs(&self) -> (r: Option<String>)
        ensures
            r is None,
    {
        None
    }

    /// One definition: a link, then its marker patterns as nested items.
    pub fn format_def(&self, def: &BuildToolDef, _first: bool) -> (r: Result<String>)
        ensures
            r is Ok,
            r->Ok_0@ == md_def(def@),
    {
        let mut acc = "- [".to_owned();
        acc.append(def.name.as_str());
        acc.append("](");
        acc.append(def.url.as_str());
        acc.append(")\n  - ");
        let files = join_strings(&def.build_files, "\n  - ");
        acc.append(files.as_str());
        Ok(acc)
    }

    /// Markdown has no result header.
    pub fn header_files(&self) -> (r: Option<String>)
        ensures
            r is None,
    {
        None
    }

    /// Markdown has no result footer.
    pub fn footer_files(&self) -> (r: Option<String>)
        ensures
            r is None,
    {
        None
    }

    /// One scan result: a list entry per detected tool under the base.
    pub fn format_files(&self, tools: &BuildTools, _first: bool) -> (r: Result<String>)
        ensures
            r is Ok,
            r->Ok_0@ == md_files(tools.base@, tools.tools@),
    {
        let mut acc = String::new();
        let n = tools.tools.len();
        let mut i: usize = 0;
        proof {
            assert(tools.tools@.subrange(0, 0) =~= Seq::<BuildTool>::empty());
        }
        while i < n
            invariant
                n == tools.tools@.len(),
                0 <= i <= n,
                acc@ == md_files(tools.base@, tools.tools@.subrange(0, i as int)),
            decreases n - i,
        {
            let ghost next = tools.tools@.subrange(0, i as int + 1);
            proof {
                assert(next.drop_last() =~= tools.tools@.subrange(0, i as int));
                assert(next.last() == tools.tools@[i as int]);
            }
            let bt = &tools.tools[i];
            if let Some(rel) = try_relative(bt.path.as_str(), tools.base.as_str()) {
                acc.append("- ");
                acc.append(bt.def.name.as_str());
                acc.append("\n  - ");
                acc.append(tools.base.as_str());
                acc.append("/");
                acc.append(rel.as_str());
                acc.append("\n");
            }
            i = i + 1;
        }
        proof {
            assert(tools.tools@.subrange(0, n as int) =~= tools.tools@);
        }
        Ok(acc)
    }
}

// ---------------------------------------------------------------- xml

/// One marker pattern as an XML element line.
pub open spec fn xml_def_file_line(f: Seq<char>) -> Seq<char> {
    "            <build-file>"@ + f + "</build-file>\n"@
}

/// A definition as an XML element.
pub open spec fn xml_def(d: DefModel) -> Seq<char> {
    "    <build-tool-def>\n        <name>"@ + d.name + "</name>\n        <build-files>\n"@
        + concatenated(d.build_files.map_values(|f: Seq<char>| xml_def_file_line(f)))
        + "        </build-files>\n        <url>"@ + d.url + "</url>\n    </build-tool-def>"@
}

/// One detected tool as an XML element line: its path relative to the base
/// where it lies under it, unchanged otherwise.
pub open spec fn xml_file_line(base: Seq<char>, bt: BuildTool) -> Seq<char> {
    "            <build-file tool-name=\""@ + bt.def.name@ + "\">"@ + (if spec_strippable(
        base,
        bt.path@,
    ) {
        spec_relative(base, bt.path@)
    } else {
        bt.path@
    }) + "</build-file>\n"@
}

/// The tool elements of one scan result.
pub open spec fn xml_file_lines(base: Seq<char>, tools: Seq<BuildTool>) -> Seq<char>
    decreases tools.len(),
{
    if tools.len() == 0 {
        Seq::empty()
    } else {
        xml_file_lines(base, tools.drop_last()) + xml_file_line(base, tools.last())
    }
}

/// A scan result as an XML project element.
pub open spec fn xml_files(base: Seq<char>, tools: Seq<BuildTool>) -> Seq<char> {
    "    <project>\n        <base-path>"@ + base + "</base-path>\n        <build-files>"@ + "\n"@
        + xml_file_lines(base, tools) + "        </build-files>\n    </project>"@ + "\n"@
}

/// Renders catalogs and results as XML.
#[derive(Debug)]
pub struct XmlFormatter {}

impl XmlFormatter {
    /// This formatter's name.
    pub fn name(&self) -> (r: &'static str)
        ensures
            r@ == "xml"@,
    {
        "xml"
    }

    /// The XML catalog's preamble and opening tag.
    pub fn header_defs(&self) -> (r: Option<String>)
        ensures
            r matches Some(s) && s@ == "<? xml version=\"1.0\" ?>\n<build-tool-defs>\n"@,
    {
        Some("<? xml version=\"1.0\" ?>\n<build-tool-defs>\n".to_owned())
    }

    /// The XML catalog's closing tag.
    pub fn footer_defs(&self) -> (r: Option<String>)
        ensures
            r matches Some(s) && s@ == "</build-tool-defs>"@,
    {
        Some("</build-tool-defs>".to_owned())
    }

    /// One definition as an XML element.
    pub fn format_def(&self, def: &BuildToolDef, _first: bool) -> (r: Result<String>)
        ensures
            r is Ok,
            r->Ok_0@ == xml_def(def@),
    {
        let mut acc = "    <build-tool-def>\n        <name>".to_owned();
        acc.append(def.name.as_str());
        acc.append("</name>\n        <build-files>\n");
        let ghost head = acc@;
        let n = def.build_files.len();
        let mut i: usize = 0;
        proof {
            assert(def@.build_files.subrange(0, 0).map_values(|f: Seq<char>| xml_def_file_line(f))
                =~= Seq::<Seq<char>>::empty());
        }
        while i < n
            invariant
                n == def.build_files@.len(),
                def@.build_files.len() == n,
                0 <= i <= n,
                acc@ == head + concatenated(
                    def@.build_files.subrange(0, i as int).map_values(
                        |f: Seq<char>| xml_def_file_line(f),
                    ),
                ),
            decreases n - i,
        {
            let ghost prefix = def@.build_files.subrange(0, i as int).map_values(
                |f: Seq<char>| xml_def_file_line(f),
            );
            let ghost next = def@.build_files.subrange(0, i as int + 1).map_values(
                |f: Seq<char>| xml_def_file_line(f),
            );
            proof {
                assert(next.drop_last() =~= prefix);
                assert(next.last() == xml_def_file_line(def@.build_files[i as int]));
            }
            acc.append("            <build-file>");
            acc.append(def.build_files[i].as_str());
            acc.append("</build-file>\n");
            i = i + 1;
        }
        proof {
            assert(def@.build_files.subrange(0, n as int) =~= def@.build_files);
        }
        acc.append("        </build-files>\n        <url>");
        acc.append(def.url.as_str());
        acc.append("</url>\n    </build-tool-def>");
        Ok(acc)
    }

    /// The XML result preamble and opening tag.
    pub fn header_files(&self) -> (r: Option<String>)
        ensures
            r matches Some(s) && s@ == "<? xml version=\"1.0\" ?>\n<build-tools>"@,
    {
        Some("<? xml version=\"1.0\" ?>\n<build-tools>".to_owned())
    }

    /// The XML result closing tag.
    pub fn footer_files(&self) -> (r: Option<String>)
        ensures
            r matches Some(s) && s@ == "</build-tools>"@,
    {
        Some("</build-tools>".to_owned())
    }

    /// One scan result as an XML project element.
    pub fn format_files(&self, tools: &BuildTools, _first: bool) -> (r: Result<String>)
        ensures
            r is Ok,
            r->Ok_0@ == xml_files(tools.base@, tools.tools@),
    {
        let mut acc = "    <project>\n        <base-path>".to_owned();
        acc.append(tools.base.as_str());
        acc.append("</base-path>\n        <build-files>");
        acc.append("\n");
        let ghost head = acc@;
        let n = tools.tools.len();
        let mut i: usize = 0;
        proof {
            assert(tools.tools@.subrange(0, 0) =~= Seq::<BuildTool>::empty());
        }
        while i < n
            invariant
                n == tools.tools@.len(),
                0 <= i <= n,
                acc@ == head + xml_file_lines(tools.base@, tools.tools@.subrange(0, i as int)),
            decreases n - i,
        {
            let ghost next = tools.tools@.subrange(0, i as int + 1);
            proof {
                assert(next.drop_last() =~= tools.tools@.subrange(0, i as int));
                assert(next.last() == tools.tools@[i as int]);
            }
            let bt = &tools.tools[i];
            acc.append("            <build-file tool-name=\"");
            acc.append(bt.def.name.as_str());
            acc.append("\">");
            match try_relative(bt.path.as_str(), tools.base.as_str()) {
                Some(rel) => acc.append(rel.as_str()),
                None => acc.append(bt.path.as_str()),
            }
            acc.append("</build-file>\n");
            i = i + 1;
        }
        proof {
            assert(tools.tools@.subrange(0, n as int) =~= tools.tools@);
        }
        acc.append("        </build-files>\n    </project>");
        acc.append("\n");
        Ok(acc)
    }
}

// ---------------------------------------------------------------- yaml

/// One marker pattern as a quoted YAML list item.
pub open spec fn yaml_def_file_item(f: Seq<char>) -> Seq<char> {
    "  - \""@ + f + "\""@
}

/// A definition as a YAML mapping.
pub open spec fn yaml_def(d: DefModel) -> Seq<char> {
    "- name: \""@ + d.name + "\"\n  build-files:\n"@ + joined(
        d.build_files.map_values(|f: Seq<char>| yaml_def_file_item(f)),
        "\n"@,
    ) + "\n  url: \""@ + d.url + "\""@
}

/// One detected tool as a YAML list entry; a tool whose path does not lie
/// under the base is passed over.
pub open spec fn yaml_file_line(base: Seq<char>, bt: BuildTool) -> Seq<char> {
    if spec_strippable(base, bt.path@) {
        "  - tool-name: "@ + bt.def.name@ + "\n    file-path: "@ + spec_relative(base, bt.path@)
            + "\n"@
    } else {
        Seq::empty()
    }
}

/// The tool entries of one scan result in YAML.
pub open spec fn yaml_file_lines(base: Seq<char>, tools: Seq<BuildTool>) -> Seq<char>
    decreases tools.len(),
{
    if tools.len() == 0 {
        Seq::empty()
    } else {
        yaml_file_lines(base, tools.drop_last()) + yaml_file_line(base, tools.last())
    }
}

/// A scan result as a YAML mapping.
pub open spec fn yaml_files(base: Seq<char>, tools: Seq<BuildTool>) -> Seq<char> {
    "- project: "@ + base + "\n  build-files:\n"@ + yaml_file_lines(base, tools)
}

/// Renders catalogs and results as YAML.
#[derive(Debug)]
pub struct YamlFormatter {}

impl YamlFormatter {
    /// This formatter's name.
    pub fn name(&self) -> (r: &'static str)
        ensures
            r@ == "yaml"@,
    {
        "yaml"
    }

    /// YAML has no catalog header.
    pub fn header_defs(&self) -> (r: Option<String>)
        ensures
            r is None,
    {
        None
    }

    /// YAML has no catalog footer.
    pub fn footer_defs(&self) -> (r: Option<String>)
        ensures
            r is None,
    {
        None
    }

    /// One definition as a YAML mapping.
    pub fn format_def(&self, def: &BuildToolDef, _first: bool) -> (r: Result<String>)
        ensures
            r is Ok,
            r->Ok_0@ == yaml_def(def@),
    {
        let mut items: Vec<String> = Vec::new();
        let n = def.build_files.len();
        let mut i: usize = 0;
        while i < n
            invariant
                n == def.build_files@.len(),
                def@.build_files.len() == n,
                0 <= i <= n,
                items@.len() == i,
                forall|k: int|
                    0 <= k < i ==> (#[trigger] items@[k])@ == yaml_def_file_item(
                        def@.build_files[k],
                    ),
            decreases n - i,
        {
            let mut q = "  - \"".to_owned();
            q.append(def.build_files[i].as_str());
            q.append("\"");
            items.push(q);
            i = i + 1;
        }
        proof {
            assert(items.deep_view() =~= def@.build_files.map_values(
                |f: Seq<char>| yaml_def_file_item(f),
            ));
        }
        let mut acc = "- name: \"".to_owned();
        acc.append(def.name.as_str());
        acc.append("\"\n  build-files:\n");
        let body = join_strings(&items, "\n");
        acc.append(body.as_str());
        acc.append("\n  url: \"");
        acc.append(def.url.as_str());
        acc.append("\"");
        Ok(acc)
    }

    /// YAML has no result header.
    pub fn header_files(&self) -> (r: Option<String>)
        ensures
            r is None,
    {
        None
    }

    /// YAML has no result footer.
    pub fn footer_files(&self) -> (r: Option<String>)
        ensures
            r is None,
    {
        None
    }

    /// One scan result as a YAML mapping with one entry per detected tool
    /// under the base.
    pub fn format_files(&self, tools: &BuildTools, _first: bool) -> (r: Result<String>)
        ensures
            r is Ok,
            r->Ok_0@ == yaml_files(tools.base@, tools.tools@),
    {
        let mut acc = "- project: ".to_owned();
        acc.append(tools.base.as_str());
        acc.append("\n  build-files:\n");
        let ghost head = acc@;
        let n = tools.tools.len();
        let mut i: usize = 0;
        proof {
            assert(tools.tools@.subrange(0, 0) =~= Seq::<BuildTool>::empty());
        }
        while i < n
            invariant
                n == tools.tools@.len(),
                0 <= i <= n,
                acc@ == head + yaml_file_lines(tools.base@, tools.tools@.subrange(0, i as int)),
            decreases n - i,
        {
            let ghost next = tools.tools@.subrange(0, i as int + 1);
            proof {
                assert(next.drop_last() =~= tools.tools@.subrange(0, i as int));
                assert(next.last() == tools.tools@[i as int]);
            }
            let bt = &tools.tools[i];
            if let Some(rel) = try_relative(bt.path.as_str(), tools.base.as_str()) {
                acc.append("  - tool-name: ");
                acc.append(bt.def.name.as_str());
                acc.append("\n    file-path: ");
                acc.append(rel.as_str());
                acc.append("\n");
            }
            i = i + 1;
        }
        proof {
            assert(tools.tools@.subrange(0, n as int) =~= tools.tools@);
        }
        Ok(acc)
    }
}

// ---------------------------------------------------------------- dispatch

/// One formatter, chosen by output format.
#[derive(Debug)]
pub enum Formatter {
    Csv(CsvFormatter),
    Default(DefaultFormatter),
    Json(JsonFormatter),
    Markdown(MarkdownFormatter),
    Xml(XmlFormatter),
    Yaml(YamlFormatter),
}

/// What one definition renders to in the given format.
pub open spec fn spec_format_def(f: Format, d: DefModel, first: bool) -> Seq<char> {
    match f {
        Format::Csv => csv_def(d),
        Format::Default => default_def(d),
        Format::Json => json_def(d, first),
        Format::Markdown => md_def(d),
        Format::Xml => xml_def(d),
        Format::Yaml => yaml_def(d),
    }
}

/// What one scan result renders to in the given format.
pub open spec fn spec_format_files(
    f: Format,
    base: Seq<char>,
    tools: Seq<BuildTool>,
    first: bool,
) -> Seq<char> {
    match f {
        Format::Csv => csv_files(base, tools),
        Format::Default => default_files(base, tools),
        Format::Json => json_files(base, tools, first),
        Format::Markdown => md_files(base, tools),
        Format::Xml => xml_files(base, tools),
        Format::Yaml => yaml_files(base, tools),
    }
}

/// The catalog header of the given format, where it has one.
pub open spec fn spec_header_defs(f: Format) -> Option<Seq<char>> {
    match f {
        Format::Json => Some("["@),
        Format::Xml => Some("<? xml version=\"1.0\" ?>\n<build-tool-defs>\n"@),
        _ => None,
    }
}

/// The catalog footer of the given format, where it has one.
pub open spec fn spec_footer_defs(f: Format) -> Option<Seq<char>> {
    match f {
        Format::Json => Some("]"@),
        Format::Xml => Some("</build-tool-defs>"@),
        _ => None,
    }
}

/// The result header of the given format, where it has one.
pub open spec fn spec_header_files(f: Format) -> Option<Seq<char>> {
    match f {
        Format::Json => Some("["@),
        Format::Xml => Some("<? xml version=\"1.0\" ?>\n<build-tools>"@),
        _ => None,
    }
}

/// The result footer of the given format, where it has one.
pub open spec fn spec_footer_files(f: Format) -> Option<Seq<char>> {
    match f {
        Format::Json => Some("]"@),
        Format::Xml => Some("</build-tools>"@),
        _ => None,
    }
}

impl Formatter {
    /// The formatter that renders the given format.
    pub fn build(format: Format) -> (r: Formatter)
        ensures
            r.fmt_of() == format,
    {
        build_formatter(format)
    }

    /// The format this formatter renders.
    pub open spec fn fmt_of(&self) -> Format {
        match *self {
            Formatter::Csv(_) => Format::Csv,
            Formatter::Default(_) => Format::Default,
            Formatter::Json(_) => Format::Json,
            Formatter::Markdown(_) => Format::Markdown,
            Formatter::Xml(_) => Format::Xml,
            Formatter::Yaml(_) => Format::Yaml,
        }
    }

    /// This formatter's name.
    pub fn name(&self) -> (r: &'static str)
        ensures
            r@ == match self.fmt_of() {
                Format::Csv => "csv"@,
                Format::Default => "default"@,
                Format::Json => "json"@,
                Format::Markdown => "markdown"@,
                Format::Xml => "xml"@,
                Format::Yaml => "yaml"@,
            },
    {
        match self {
            Formatter::Csv(f) => f.name(),
            Formatter::Default(f) => f.name(),
            Formatter::Json(f) => f.name(),
            Formatter::Markdown(f) => f.name(),
            Formatter::Xml(f) => f.name(),
            Formatter::Yaml(f) => f.name(),
        }
    }

    /// The catalog header, where this format has one.
    pub fn header_defs(&self) -> (r: Option<String>)
        ensures
            r is Some <==> spec_header_defs(self.fmt_of()) is Some,
            r matches Some(s) ==> Some(s@) == spec_header_defs(self.fmt_of()),
    {
        match self {
            Formatter::Csv(f) => f.header_defs(),
            Formatter::Default(f) => f.header_defs(),
            Formatter::Json(f) => f.header_defs(),
            Formatter::Markdown(f) => f.header_defs(),
            Formatter::Xml(f) => f.header_defs(),
            Formatter::Yaml(f) => f.header_defs(),
        }
    }

    /// The catalog footer, where this format has one.
    pub fn footer_defs(&self) -> (r: Option<String>)
        ensures
            r is Some <==> spec_footer_defs(self.fmt_of()) is Some,
            r matches Some(s) ==> Some(s@) == spec_footer_defs(self.fmt_of()),
    {
        match self {
            Formatter::Csv(f) => f.footer_defs(),
            Formatter::Default(f) => f.footer_defs(),
            Formatter::Json(f) => f.footer_defs(),
            Formatter::Markdown(f) => f.footer_defs(),
            Formatter::Xml(f) => f.footer_defs(),
            Formatter::Yaml(f) => f.footer_defs(),
        }
    }

    /// One definition, rendered.
    pub fn format_def(&self, def: &BuildToolDef, first: bool) -> (r: Result<String>)
        ensures
            r is Ok,
            r->Ok_0@ == spec_format_def(self.fmt_of(), def@, first),
    {
        match self {
            Formatter::Csv(f) => f.format_def(def, first),
            Formatter::Default(f) => f.format_def(def, first),
            Formatter::Json(f) => f.format_def(def, first),
            Formatter::Markdown(f) => f.format_def(def, first),
            Formatter::Xml(f) => f.format_def(def, first),
            Formatter::Yaml(f) => f.format_def(def, first),
        }
    }

    /// The result header, where this format has one.
    pub fn header_files(&self) -> (r: Option<String>)
        ensures
            r is Some <==> spec_header_files(self.fmt_of()) is Some,
            r matches Some(s) ==> Some(s@) == spec_header_files(self.fmt_of()),
    {
        match self {
            Formatter::Csv(f) => f.header_files(),
            Formatter::Default(f) => f.header_files(),
            Formatter::Json(f) => f.header_files(),
            Formatter::Markdown(f) => f.header_files(),
            Formatter::Xml(f) => f.header_files(),
            Formatter::Yaml(f) => f.header_files(),
        }
    }

    /// The result footer, where this format has one.
    pub fn footer_files(&self) -> (r: Option<String>)
        ensures
            r is Some <==> spec_footer_files(self.fmt_of()) is Some,
            r matches Some(s) ==> Some(s@) == spec_footer_files(self.fmt_of()),
    {
        match self {
            Formatter::Csv(f) => f.footer_files(),
            Formatter::Default(f) => f.footer_files(),
            Formatter::Json(f) => f.footer_files(),
            Formatter::Markdown(f) => f.footer_files(),
            Formatter::Xml(f) => f.footer_files(),
            Formatter::Yaml(f) => f.footer_files(),
        }
    }

    /// One scan result, rendered.
    pub fn format_files(&self, tools: &BuildTools, first: bool) -> (r: Result<String>)
        ensures
            r is Ok,
            r->Ok_0@ == spec_format_files(self.fmt_of(), tools.base@, tools.tools@, first),
    {
        match self {
            Formatter::Csv(f) => f.format_files(tools, first),
            Formatter::Default(f) => f.format_files(tools, first),
            Formatter::Json(f) => f.format_files(tools, first),
            Formatter::Markdown(f) => f.format_files(tools, first),
            Formatter::Xml(f) => f.format_files(tools, first),
            Formatter::Yaml(f) => f.format_files(tools, first),
        }
    }
}

/// The formatter that renders the given format.
pub fn build_formatter(format: Format) -> (r: Formatter)
    ensures
        r.fmt_of() == format,
{
    match format {
        Format::Csv => Formatter::Csv(CsvFormatter {}),
        Format::Default => Formatter::Default(DefaultFormatter {}),
        Format::Json => Formatter::Json(JsonFormatter {}),
        Format::Markdown => Formatter::Markdown(MarkdownFormatter {}),
        Format::Xml => Formatter::Xml(XmlFormatter {}),
        Format::Yaml => Formatter::Yaml(YamlFormatter {}),
    }
}

// ---------------------------------------------------------------- rendering

/// An optional header or footer as a line of output: the text and a line
/// break, or nothing.
pub open spec fn opt_line(o: Option<Seq<char>>) -> Seq<char> {
    match o {
        None => Seq::empty(),
        Some(s) => s + "\n"@,
    }
}

/// The catalog entries rendered in order, one line each; the first entry is
/// marked as first.
pub open spec fn defs_body(f: Format, defs: Seq<DefModel>) -> Seq<char>
    decreases defs.len(),
{
    if defs.len() == 0 {
        Seq::empty()
    } else {
        defs_body(f, defs.drop_last()) + spec_format_def(f, defs.last(), defs.len() == 1) + "\n"@
    }
}

/// A whole catalog listing: header, entries, footer.
pub open spec fn spec_render_defs(f: Format, defs: Seq<DefModel>) -> Seq<char> {
    opt_line(spec_header_defs(f)) + defs_body(f, defs) + opt_line(spec_footer_defs(f))
}

/// The scan results rendered in order; the first is marked as first.
pub open spec fn results_body(f: Format, rs: Seq<BuildTools>) -> Seq<char>
    decreases rs.len(),
{
    if rs.len() == 0 {
        Seq::empty()
    } else {
        results_body(f, rs.drop_last()) + spec_format_files(
            f,
            rs.last().base@,
            rs.last().tools@,
            rs.len() == 1,
        )
    }
}

/// A whole result listing: header, each target's rendering, footer.
pub open spec fn spec_render_results(f: Format, rs: Seq<BuildTools>) -> Seq<char> {
    opt_line(spec_header_files(f)) + results_body(f, rs) + opt_line(spec_footer_files(f))
}

/// Renders the whole catalog in the given format: header line, one line per
/// definition, footer line.
pub fn render_defs(format: Format, defs: &BuildToolDefs) -> (r: String)
    ensures
        r@ == spec_render_defs(format, defs@),
{
    let f = build_formatter(format);
    let mut acc = String::new();
    if let Some(h) = f.header_defs() {
        acc.append(h.as_str());
        acc.append("\n");
    }
    proof {
        assert(acc@ =~= opt_line(spec_header_defs(format)));
    }
    let ghost head = acc@;
    let n = defs.defs.len();
    let mut i: usize = 0;
    proof {
        assert(defs@.subrange(0, 0) =~= Seq::<DefModel>::empty());
    }
    while i < n
        invariant
            f.fmt_of() == format,
            n == defs.defs@.len(),
            defs@.len() == n,
            0 <= i <= n,
            acc@ == head + defs_body(format, defs@.subrange(0, i as int)),
        decreases n - i,
    {
        let ghost next = defs@.subrange(0, i as int + 1);
        proof {
            assert(next.drop_last() =~= defs@.subrange(0, i as int));
            assert(next.last() == defs@[i as int]);
        }
        let line = match f.format_def(&defs.defs[i], i == 0) {
            Ok(s) => s,
            Err(_) => {
                assert(false);
                String::new()
            },
        };
        acc.append(line.as_str());
        acc.append("\n");
        proof {
            assert(acc@ =~= head + defs_body(format, next));
        }
        i = i + 1;
    }
    proof {
        assert(defs@.subrange(0, n as int) =~= defs@);
    }
    if let Some(t) = f.footer_defs() {
        acc.append(t.as_str());
        acc.append("\n");
    }
    proof {
        assert(acc@ =~= spec_render_defs(format, defs@));
    }
    acc
}

/// Renders every scan result in the given format: header line, each
/// target's rendering, footer line.
pub fn render_results(format: Format, results: &Vec<BuildTools>) -> (r: String)
    ensures
        r@ == spec_render_results(format, results@),
{
    let f = build_formatter(format);
    let mut acc = String::new();
    if let Some(h) = f.header_files() {
        acc.append(h.as_str());
        acc.append("\n");
    }
    proof {
        assert(acc@ =~= opt_line(spec_header_files(format)));
    }
    let ghost head = acc@;
    let n = results.len();
    let mut i: usize = 0;
    proof {
        assert(results@.subrange(0, 0) =~= Seq::<BuildTools>::empty());
    }
    while i < n
        invariant
            f.fmt_of() == format,
            n == results@.len(),
            0 <= i <= n,
            acc@ == head + results_body(format, results@.subrange(0, i as int)),
        decreases n - i,
    {
        let ghost next = results@.subrange(0, i as int + 1);
        proof {
            assert(next.drop_last() =~= results@.subrange(0, i as int));
            assert(next.last() == results@[i as int]);
        }
        let part = match f.format_files(&results[i], i == 0) {
            Ok(s) => s,
            Err(_) => {
                assert(false);
                String::new()
            },
        };
        acc.append(part.as_str());
        proof {
            assert(acc@ =~= head + results_body(format, next));
        }
        i = i + 1;
    }
    proof {
        assert(results@.subrange(0, n as int) =~= results@);
    }
    if let Some(t) = f.footer_files() {
        acc.append(t.as_str());
        acc.append("\n");
    }
    proof {
        assert(acc@ =~= spec_render_results(format, results@));
    }
    acc
}

// ---------------------------------------------------------------- samples

/// A sample definition, for trying a formatter out.
pub fn fake_build_def() -> (r: BuildToolDef)
    ensures
        r@.name == "Fake"@,
        r@.build_files == seq!["Fakefile"@],
        r@.url == "https://example.com"@,
{
    let files = vec!["Fakefile".to_owned()];
    assert(files.deep_view() =~= seq!["Fakefile"@]);
    BuildToolDef::new("Fake".to_owned(), files, "https://example.com".to_owned())
}

/// A sample scan result with two detected tools, for trying a formatter out.
pub fn fake_build_tools() -> (r: BuildTools)
    ensures
        r.base@ == "fake/base/dir"@,
        r.tools@.len() == 2,
        r.tools@[0].path@ == "fake/base/dir/Fakefile"@,
        r.tools@[0].def@.name == "Fake"@,
        r.tools@[1].path@ == "fake/base/dir/Makefile"@,
        r.tools@[1].def@.name == "Make"@,
{
    let fake = fake_build_def();
    let make_files = vec!["Makefile".to_owned()];
    let make = BuildToolDef::new("Make".to_owned(), make_files, "https://example.com".to_owned());
    let t1 = BuildTool { path: "fake/base/dir/Fakefile".to_owned(), def: fake };
    let t2 = BuildTool { path: "fake/base/dir/Makefile".to_owned(), def: make };
    let tools = vec![t1, t2];
    BuildTools { base: "fake/base/dir".to_owned(), tools }
}

} // verus!
