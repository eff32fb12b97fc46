use crate::process::{
    read_call, write_call, ErrorKind, Invocation, InvocationView, OpError, OpErrorView,
};
use vstd::prelude::*;

verus! {

/// `machinectl list-images --output json`
pub open spec fn list_images_call() -> InvocationView {
    read_call(seq!["list-images"@, "--output"@, "json"@])
}

/// `machinectl start <name>`
pub open spec fn start_call(name: Seq<char>) -> InvocationView {
    write_call(seq!["start"@, name], "Failed to start image"@)
}

/// `machinectl remove <name>`
pub open spec fn remove_call(name: Seq<char>) -> InvocationView {
    write_call(seq!["remove"@, name], "Failed to remove image"@)
}

/// `machinectl rename <old> <new>`
pub open spec fn rename_call(old_name: Seq<char>, new_name: Seq<char>) -> InvocationView {
    write_call(seq!["rename"@, old_name, new_name], "Failed to rename image"@)
}

/// `machinectl clone <old> <new>`
pub open spec fn clone_call(old_name: Seq<char>, new_name: Seq<char>) -> InvocationView {
    write_call(seq!["clone"@, old_name, new_name], "Failed to clone image"@)
}

/// `machinectl read-only <name> true|false`
pub open spec fn read_only_call(name: Seq<char>, value: bool) -> InvocationView {
    write_call(
        seq![
            "read-only"@,
            name,
            if value {
                "true"@
            } else {
                "false"@
            },
        ],
        "Failed to set read-only"@,
    )
}

/// The subcommand that pulls an image of the given type, if there is one.
pub open spec fn pull_command(image_type: Seq<char>) -> Option<Seq<char>> {
    if image_type == "raw"@ {
        Some("pull-raw"@)
    } else if image_type == "tar"@ {
        Some("pull-tar"@)
    } else {
        None
    }
}

/// The error of an image type that cannot be pulled.
pub open spec fn invalid_image_type() -> OpErrorView {
    OpErrorView { kind: ErrorKind::Usage, message: "Invalid image type"@ }
}

/// `machinectl pull-raw <url> <name>` or `machinectl pull-tar <url> <name>`
/// by the type of the image, and an error for any other type.
pub open spec fn import_call(
    url: Seq<char>,
    image_type: Seq<char>,
    import_name: Seq<char>,
) -> Result<InvocationView, OpErrorView> {
    match pull_command(image_type) {
        Some(pull) => Ok(write_call(seq![pull, url, import_name], "Failed to import image"@)),
        None => Err(invalid_image_type()),
    }
}

/// The invocation that lists the local images as JSON.
pub fn list_local_images() -> (call: Invocation)
    ensures
        call@ == list_images_call(),
{
    let mut args: Vec<String> = Vec::new();
    args.push("list-images".to_string());
    args.push("--output".to_string());
    args.push("json".to_string());
    proof {
        assert(args.deep_view() =~= list_images_call().args);
    }
    Invocation::read(args)
}

/// The invocation that starts the image `name`.
pub fn start_image(name: &str) -> (call: Invocation)
    ensures
        call@ == start_call(name@),
{
    let mut args: Vec<String> = Vec::new();
    args.push("start".to_string());
    args.push(name.to_string());
    proof {
        assert(args.deep_view() =~= start_call(name@).args);
    }
    Invocation::write(args, "Failed to start image")
}

/// The invocation that removes the image `name`.
pub fn remove_image(name: &str) -> (call: Invocation)
    ensures
        call@ == remove_call(name@),
{
    let mut args: Vec<String> = Vec::new();
    args.push("remove".to_string());
    args.push(name.to_string());
    proof {
        assert(args.deep_view() =~= remove_call(name@).args);
    }
    Invocation::write(args, "Failed to remove image")
}

/// The invocation that renames the image `old_name` to `new_name`.
pub fn rename_image(old_name: &str, new_name: &str) -> (call: Invocation)
    ensures
        call@ == rename_call(old_name@, new_name@),
{
    let mut args: Vec<String> = Vec::new();
    args.push("rename".to_string());
    args.push(old_name.to_string());
    args.push(new_name.to_string());
    proof {
        assert(args.deep_view() =~= rename_call(old_name@, new_name@).args);
    }
    Invocation::write(args, "Failed to rename image")
}

/// The invocation that clones the image `old_name` as `new_name`.
pub fn clone_image(old_name: &str, new_name: &str) -> (call: Invocation)
    ensures
        call@ == clone_call(old_name@, new_name@),
{
    let mut args: Vec<String> = Vec::new();
    args.push("clone".to_string());
    args.push(old_name.to_string());
    args.push(new_name.to_string());
    proof {
        assert(args.deep_view() =~= clone_call(old_name@, new_name@).args);
    }
    Invocation::write(args, "Failed to clone image")
}

/// The invocation that has the daemon pull the image at `url` and keep it
/// as `import_name`. Only images of type `raw` and `tar` can be pulled: any
/// other type is an error, and nothing is to be run.
pub fn import_remote_image(url: &str, image_type: &str, import_name: &str) -> (r: Result<
    Invocation,
    OpError,
>)
    ensures
        match r {
            Ok(call) => import_call(url@, image_type@, import_name@) == Ok::<
                InvocationView,
                OpErrorView,
            >(call@),
            Err(e) => import_call(url@, image_type@, import_name@) == Err::<
                InvocationView,
                OpErrorView,
            >(e@),
        },
{
    let kind = image_type.to_string();
    let pull = if kind == "raw".to_string() {
        "pull-raw"
    } else if kind == "tar".to_string() {
        "pull-tar"
    } else {
        return Err(OpError::new(ErrorKind::Usage, "Invalid image type"));
    };
    let mut args: Vec<String> = Vec::new();
    args.push(pull.to_string());
    args.push(url.to_string());
    args.push(import_name.to_string());
    proof {
        assert(args.deep_view() =~= seq![pull@, url@, import_name@]);
    }
    Ok(Invocation::write(args, "Failed to import image"))
}

/// The invocation that makes the image `name` read-only, or writable again.
pub fn set_read_only(name: &str, value: bool) -> (call: Invocation)
    ensures
        call@ == read_only_call(name@, value),
{
    let mut args: Vec<String> = Vec::new();
    args.push("read-only".to_string());
    args.push(name.to_string());
    if value {
        args.push("true".to_string());
    } else {
        args.push("false".to_string());
    }
    proof {
        assert(args.deep_view() =~= read_only_call(name@, value).args);
    }
    Invocation::write(args, "Failed to set read-only")
}

} // verus!
