use vstd::prelude::*;

verus! {

/// Settings of the pane filter, after defaults and overrides are applied.
#[derive(Debug, Clone)]
pub struct PluginConfig {
    /// Patterns that select panes by title.
    pub pane_filters: Vec<String>,
    /// Repository ("owner/repo") or full URL holding the method catalog.
    pub methods_repo: String,
    /// Branch to fetch the catalog from.
    pub methods_branch: String,
    /// Path of the catalog inside the repository.
    pub methods_path: String,
}

/// The catalog repository used when none is configured: none at all.
pub fn default_methods_repo() -> (r: String)
    ensures
        r@ == Seq::<char>::empty(),
{
    String::new()
}

/// The branch used when none is configured.
pub fn default_branch() -> (r: String)
    ensures
        r@ == "main"@,
{
    String::from_str("main")
}

/// The catalog path used when none is configured.
pub fn default_methods_path() -> (r: String)
    ensures
        r@ == "methods.json"@,
{
    String::from_str("methods.json")
}

impl PluginConfig {
    /// The configuration with every field at its default.
    pub open spec fn is_default(&self) -> bool {
        &&& self.pane_filters@.len() == 0
        &&& self.methods_repo@ == Seq::<char>::empty()
        &&& self.methods_branch@ == "main"@
        &&& self.methods_path@ == "methods.json"@
    }
}

impl Default for PluginConfig {
    fn default() -> (r: Self)
        ensures
            r.is_default(),
    {
        PluginConfig {
            pane_filters: Vec::new(),
            methods_repo: default_methods_repo(),
            methods_branch: default_branch(),
            methods_path: default_methods_path(),
        }
    }
}

/// One action of the catalog: a command run on a pane, possibly inside a
/// container.
#[derive(Debug, Clone)]
pub struct Method {
    pub id: String,
    pub name: String,
    pub description: String,
    /// Container image to run the command in, if any.
    pub docker_image: Option<String>,
    pub command: String,
    pub args: Vec<String>,
    /// Environment bindings passed to the container, as (name, value).
    pub env: Vec<(String, String)>,
    pub requires_confirmation: bool,
}

/// A whole catalog, as loaded from one document.
#[derive(Debug, Clone)]
pub struct MethodsConfig {
    pub version: String,
    pub methods: Vec<Method>,
}

/// The `-e NAME=VALUE` tokens for each binding of `env`, in order.
pub open spec fn env_tokens(env: Seq<(String, String)>) -> Seq<Seq<char>>
    decreases env.len(),
{
    if env.len() == 0 {
        Seq::empty()
    } else {
        env_tokens(env.drop_last()) + seq!["-e"@, env.last().0@ + "="@ + env.last().1@]
    }
}

impl Method {
    /// The command followed by its arguments.
    pub open spec fn direct_tokens(&self) -> Seq<Seq<char>> {
        seq![self.command@] + self.args@.map_values(|a: String| a@)
    }

    /// The full command line: the direct tokens, or, with an image, a
    /// throwaway interactive container run of the image with one binding per
    /// environment entry, the image immediately before the direct tokens.
    pub open spec fn invocation(&self) -> Seq<Seq<char>> {
        match self.docker_image {
            Some(image) => seq!["docker"@, "run"@, "--rm"@, "-i"@] + env_tokens(self.env@) + seq![
                image@,
            ] + self.direct_tokens(),
            None => self.direct_tokens(),
        }
    }

    /// Builds the command line of this method, one token per entry.
    pub fn command_line(&self) -> (r: Vec<String>)
        ensures
            r@.map_values(|t: String| t@) == self.invocation(),
    {
        let mut out: Vec<String> = Vec::new();
        let ghost env = self.env@;
        match &self.docker_image {
            Some(image) => {
                out.push(String::from_str("docker"));
                out.push(String::from_str("run"));
                out.push(String::from_str("--rm"));
                out.push(String::from_str("-i"));
                let mut i: usize = 0;
                while i < self.env.len()
                    invariant
                        i <= env.len(),
                        env == self.env@,
                        out@.map_values(|t: String| t@) == seq![
                            "docker"@,
                            "run"@,
                            "--rm"@,
                            "-i"@,
                        ] + env_tokens(env.take(i as int)),
                    decreases env.len() - i,
                {
                    let (k, v) = &self.env[i];
                    let binding = crate::text::join2(k.as_str(), "=");
                    let binding = crate::text::join2(binding.as_str(), v.as_str());
                    let ghost o = out@;
                    out.push(String::from_str("-e"));
                    out.push(binding);
                    assert(env.take(i + 1).drop_last() =~= env.take(i as int));
                    assert(out@.map_values(|t: String| t@) =~= o.map_values(|t: String| t@)
                        + seq!["-e"@, env[i as int].0@ + "="@ + env[i as int].1@]);
                    assert(out@.map_values(|t: String| t@) =~= seq![
                        "docker"@,
                        "run"@,
                        "--rm"@,
                        "-i"@,
                    ] + env_tokens(env.take(i + 1)));
                    i = i + 1;
                }
                assert(env.take(i as int) =~= env);
                out.push(image.clone());
            },
            None => {},
        }
        let ghost before = out@.map_values(|t: String| t@);
        out.push(self.command.clone());
        let mut j: usize = 0;
        while j < self.args.len()
            invariant
                j <= self.args@.len(),
                out@.map_values(|t: String| t@) == before + seq![self.command@] + self.args@.take(
                    j as int,
                ).map_values(|a: String| a@),
            decreases self.args@.len() - j,
        {
            let ghost o = out@;
            out.push(self.args[j].clone());
            assert(out@.map_values(|t: String| t@) =~= o.map_values(|t: String| t@).push(
                self.args@[j as int]@,
            ));
            assert(out@.map_values(|t: String| t@) =~= before + seq![self.command@]
                + self.args@.take(j + 1).map_values(|a: String| a@));
            j = j + 1;
        }
        assert(self.args@.take(j as int) =~= self.args@);
        assert(out@.map_values(|t: String| t@) =~= before + self.direct_tokens());
        out
    }
}

} // verus!
