//! What the driver of the Java back end decides: where the bindings go, and
//! how the build tool is called.

use vstd::prelude::*;
use vstd::string::StringExecFns;
use crate::model::{Text, texts};

verus! {

/// What every back end is told: the name of the native library, where to put
/// the bindings, and what to call them.
pub struct BindingBuilderSettings {
    pub ffi_name: String,
    /// The directory of all bindings, component by component.
    pub destination_path: Vec<String>,
    pub java_group_id: String,
    pub library_name: String,
}

/// Where the native library of each platform lies.
pub struct PlatformLocations {
    pub locations: Vec<String>,
}

pub struct JavaBindingBuilder {
    pub settings: BindingBuilderSettings,
    pub platforms: PlatformLocations,
    pub extra_files: Vec<String>,
}

/// What the build tool is asked to do.
#[derive(Clone, Copy, Debug, PartialEq, Eq, Structural)]
pub enum MavenGoal {
    Build,
    Test,
    Package,
}

/// The program and the arguments that start the build tool, without a goal:
/// on Windows through the command interpreter, and always in batch mode.
pub open spec fn maven_line(windows: bool) -> Seq<Text> {
    if windows {
        seq!["cmd"@, "/c"@, "mvn.cmd"@, "-B"@]
    } else {
        seq!["mvn"@, "-B"@]
    }
}

/// The arguments of a goal.
pub open spec fn goal_arguments(goal: MavenGoal) -> Seq<Text> {
    match goal {
        MavenGoal::Build => seq!["compile"@],
        MavenGoal::Test => seq!["verify"@],
        MavenGoal::Package => seq!["package"@, "-DskipTests"@],
    }
}

/// What generating the bindings does with the directory they go to.
#[derive(Clone, Copy, Debug, PartialEq, Eq, Structural)]
pub enum Preparation {
    /// The directory is not there: create it.
    Create,
    /// The directory is there: remove it with all it holds, then create it.
    ClearAndCreate,
}

impl JavaBindingBuilder {
    pub fn new(
        settings: BindingBuilderSettings,
        platforms: PlatformLocations,
        extra_files: &[String],
    ) -> (b: JavaBindingBuilder)
        ensures
            b.settings == settings,
            b.platforms == platforms,
            texts(b.extra_files@) == texts(extra_files@),
    {
        let mut files: Vec<String> = Vec::new();
        let mut i: usize = 0;
        while i < extra_files.len()
            invariant
                i <= extra_files.len(),
                files@.len() == i,
                forall|k: int| 0 <= k < i ==> (#[trigger] files@[k])@ == extra_files@[k]@,
            decreases extra_files.len() - i,
        {
            files.push(extra_files[i].clone());
            i += 1;
        }
        assert(texts(files@) =~= texts(extra_files@));
        JavaBindingBuilder { settings, platforms, extra_files: files }
    }

    /// The name of the back end.
    pub fn name() -> (n: &'static str)
        ensures
            n@ == "java"@,
    {
        "java"
    }

    /// The directory of the Java bindings: `java` under the destination.
    pub fn output_dir(&self) -> (dir: Vec<String>)
        ensures
            texts(dir@) == texts(self.settings.destination_path@).push("java"@),
    {
        let mut dir = self.settings.destination_path.clone();
        assert(texts(dir@) =~= texts(self.settings.destination_path@)) by {
            assert(dir@.len() == self.settings.destination_path@.len());
        }
        dir.push(String::from_str("java"));
        assert(texts(dir@) =~= texts(self.settings.destination_path@).push("java"@));
        dir
    }

    /// The directory that the bindings are generated to: one named after the
    /// library, under the directory of the Java bindings.
    pub fn java_build_dir(&self) -> (dir: Vec<String>)
        ensures
            texts(dir@) == texts(self.settings.destination_path@).push("java"@).push(
                self.settings.library_name@,
            ),
    {
        let mut output_dir = self.output_dir();
        let ghost before = texts(output_dir@);
        output_dir.push(self.settings.library_name.clone());
        assert(texts(output_dir@) =~= before.push(self.settings.library_name@));
        output_dir
    }

    /// The program and the arguments that start the build tool for a goal.
    pub fn maven(windows: bool, goal: MavenGoal) -> (command: Vec<String>)
        ensures
            texts(command@) == maven_line(windows) + goal_arguments(goal),
    {
        let mut command: Vec<String> = Vec::new();
        if windows {
            command.push(String::from_str("cmd"));
            command.push(String::from_str("/c"));
            command.push(String::from_str("mvn.cmd"));
        } else {
            command.push(String::from_str("mvn"));
        }
        command.push(String::from_str("-B"));
        match goal {
            MavenGoal::Build => {
                command.push(String::from_str("compile"));
            },
            MavenGoal::Test => {
                command.push(String::from_str("verify"));
            },
            MavenGoal::Package => {
                command.push(String::from_str("package"));
                command.push(String::from_str("-DskipTests"));
            },
        }
        assert(texts(command@) =~= maven_line(windows) + goal_arguments(goal));
        command
    }

    /// What generating the bindings does first, given whether the directory
    /// they go to exists.
    pub fn generate(&self, build_dir_exists: bool) -> (p: Preparation)
        ensures
            p == if build_dir_exists {
                Preparation::ClearAndCreate
            } else {
                Preparation::Create
            },
    {
        if build_dir_exists {
            Preparation::ClearAndCreate
        } else {
            Preparation::Create
        }
    }
}

} // verus!
