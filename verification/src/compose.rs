//! The command lines by which docker and its compose tool are driven.
//!
//! Every function gives the arguments of one call of `docker`; running the
//! call is left to the caller.

use vstd::prelude::*;
use vstd::string::StringExecFns;

use crate::text::{join_texts, joined, texts, trim_text, trimmed};

verus! {

/// The compose tool, bound to one compose file.
#[derive(Debug)]
pub struct ComposeCmd {
    compose_path: String,
}

/// The arguments that select the compose file at `path`.
pub open spec fn compose_line(path: Seq<char>) -> Seq<Seq<char>> {
    seq!["compose"@, "-f"@, path]
}

/// The services as one argument: their names with a space between them.
pub open spec fn service_list(services: Seq<Seq<char>>) -> Seq<char> {
    joined(services, " "@, services.len() as int)
}

/// The argument that filters images by the name `image_name`.
pub open spec fn reference_filter(image_name: Seq<char>) -> Seq<char> {
    "-f 'reference="@ + image_name + "'"@
}

/// The arguments that list the dangling images with the name `image_name`.
pub open spec fn dangling_list_line(image_name: Seq<char>) -> Seq<Seq<char>> {
    seq!["images"@, reference_filter(image_name), "-f 'dangling=true'"@, "-q"@]
}

/// The arguments that remove the images that `image_ids` lists, or `None`
/// where it lists none: the list is what the listing printed, and goes on as
/// one argument without the white space at its ends.
pub open spec fn dangling_removal_line(image_ids: Seq<char>) -> Option<Seq<Seq<char>>> {
    if image_ids.len() == 0 {
        None
    } else {
        Some(seq!["rmi"@, trimmed(image_ids)])
    }
}

impl ComposeCmd {
    /// The path of the compose file.
    pub closed spec fn path(&self) -> Seq<char> {
        self.compose_path@
    }

    /// The compose tool for the compose file at `compose_path`.
    pub fn new(compose_path: &str) -> (cmd: ComposeCmd)
        ensures
            cmd.path() == compose_path@,
    {
        ComposeCmd { compose_path: compose_path.to_owned() }
    }

    /// The arguments that select the compose file: `compose`, `-f`, the path.
    pub fn compose_args(&self) -> (args: [&str; 3])
        ensures
            args[0]@ == "compose"@,
            args[1]@ == "-f"@,
            args[2]@ == self.path(),
    {
        ["compose", "-f", self.compose_path.as_str()]
    }

    fn selected(&self) -> (args: Vec<String>)
        ensures
            texts(args@) == compose_line(self.path()),
    {
        let mut args: Vec<String> = Vec::new();
        args.push("compose".to_owned());
        args.push("-f".to_owned());
        args.push(self.compose_path.clone());
        assert(texts(args@) == compose_line(self.path()));
        args
    }

    /// The arguments that print the configuration of the compose file.
    pub fn config_args(&self) -> (args: Vec<String>)
        ensures
            texts(args@) == compose_line(self.path()).push("config"@),
    {
        let mut args = self.selected();
        args.push("config".to_owned());
        assert(texts(args@) == compose_line(self.path()).push("config"@));
        args
    }

    /// The arguments that pull the images of `services`.
    pub fn pull_args(&self, services: &Vec<String>) -> (args: Vec<String>)
        ensures
            texts(args@) == compose_line(self.path()).push("pull"@).push(
                service_list(texts(services@)),
            ),
    {
        let mut args = self.selected();
        args.push("pull".to_owned());
        args.push(join_texts(services, " "));
        assert(texts(args@) == compose_line(self.path()).push("pull"@).push(
            service_list(texts(services@)),
        ));
        args
    }

    /// The arguments that bring `services` up again, detached.
    pub fn restart_args(&self, services: &Vec<String>) -> (args: Vec<String>)
        ensures
            texts(args@) == compose_line(self.path()).push("up"@).push(
                service_list(texts(services@)),
            ).push("-d"@),
    {
        let mut args = self.selected();
        args.push("up".to_owned());
        args.push(join_texts(services, " "));
        args.push("-d".to_owned());
        assert(texts(args@) == compose_line(self.path()).push("up"@).push(
            service_list(texts(services@)),
        ).push("-d"@));
        args
    }
}

/// The arguments that list the dangling images with the name `image_name`.
pub fn dangling_list_args(image_name: &str) -> (args: Vec<String>)
    ensures
        texts(args@) == dangling_list_line(image_name@),
{
    let mut filter = "-f 'reference=".to_owned();
    filter.append(image_name);
    filter.append("'");
    let mut args: Vec<String> = Vec::new();
    args.push("images".to_owned());
    args.push(filter);
    args.push("-f 'dangling=true'".to_owned());
    args.push("-q".to_owned());
    assert(texts(args@) == dangling_list_line(image_name@));
    args
}

/// The arguments that remove the images that `image_ids` lists, if it lists any.
pub fn dangling_removal_args(image_ids: &str) -> (args: Option<Vec<String>>)
    ensures
        match args {
            Some(args) => dangling_removal_line(image_ids@) == Some(texts(args@)),
            None => dangling_removal_line(image_ids@) is None,
        },
{
    if image_ids.is_empty() {
        None
    } else {
        let mut args: Vec<String> = Vec::new();
        args.push("rmi".to_owned());
        args.push(trim_text(image_ids));
        assert(texts(args@) == seq!["rmi"@, trimmed(image_ids@)]);
        Some(args)
    }
}

} // verus!
