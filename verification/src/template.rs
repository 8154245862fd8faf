//! The function that templates call to read a file: the checks on its
//! argument, and how the lines it reads are joined.
use vstd::prelude::*;

verus! {

/// The `read_file_contents` function of templates.
#[derive(Debug, PartialEq, Eq)]
pub struct ReadFileContents;

/// The `path` argument of a call, as the template gave it.
#[derive(Debug, PartialEq, Eq)]
pub enum PathArgument {
    /// No `path` argument.
    Missing,
    /// A `path` argument that is not text, as the template writes it.
    NotText(String),
    /// A text `path` argument.
    Text(String),
}

/// The message for a `path` argument that is not text.
pub open spec fn not_text_message(rendered: Seq<char>) -> Seq<char> {
    "Path: '"@ + rendered + "'. Error: Cannot convert argument 'path' to str"@
}

impl ReadFileContents {
    /// The path to read, or the message of the error.
    pub fn path_of(arg: &PathArgument) -> (r: Result<String, String>)
        ensures
            match arg {
                PathArgument::Missing => r matches Err(m) && m@ == "Argument 'path' not set"@,
                PathArgument::NotText(v) => r matches Err(m) && m@ == not_text_message(v@),
                PathArgument::Text(p) => r matches Ok(q) && q@ == p@,
            },
    {
        match arg {
            PathArgument::Missing => Err(String::from_str("Argument 'path' not set")),
            PathArgument::NotText(v) => Err(
                String::from_str("Path: '").concat(v.as_str()).concat("'. Error: Cannot convert argument 'path' to str"),
            ),
            PathArgument::Text(p) => Ok(p.clone()),
        }
    }

    /// The contents: the lines of the file one after the other, with no
    /// line break between or after them.
    pub fn join_lines(lines: &Vec<String>) -> (r: String)
        ensures
            r@ == lines.deep_view().flatten_alt(),
    {
        let mut r = String::new();
        let mut i: usize = 0;
        while i < lines.len()
            invariant
                i <= lines@.len(),
                r@ == lines.deep_view().subrange(0, i as int).flatten_alt(),
            decreases lines.len() - i,
        {
            let ghost prefix = lines.deep_view().subrange(0, i + 1);
            assert(prefix.drop_last() =~= lines.deep_view().subrange(0, i as int));
            r.append(lines[i].as_str());
            i = i + 1;
        }
        assert(lines.deep_view().subrange(0, lines@.len() as int) =~= lines.deep_view());
        r
    }
}

} // verus!
