use vstd::prelude::*;

verus! {

/// The optimization level asked for on the command line.
#[derive(Debug, Clone, Copy, PartialEq, Eq, Structural)]
pub enum Opt {
    Disabled,
    Low,
    Mid,
    Mcqueen,
}

/// How the produced program is linked.
#[derive(Debug, Clone, Copy, PartialEq, Eq, Structural)]
pub enum Linking {
    Static,
    Dynamic,
}

/// The optimization levels of the code generator.
#[derive(Debug, Clone, Copy, PartialEq, Eq, Structural)]
pub enum OptimizationLevel {
    Disabled,
    Less,
    Default,
    Aggressive,
}

/// How the code generator places code in memory.
#[derive(Debug, Clone, Copy, PartialEq, Eq, Structural)]
pub enum RelocMode {
    Default,
    Static,
    PIC,
    DynamicNoPic,
}

/// The code model of the code generator.
#[derive(Debug, Clone, Copy, PartialEq, Eq, Structural)]
pub enum CodeModel {
    Default,
    JITDefault,
    Small,
    Kernel,
    Medium,
    Large,
}

/// The settings of one run of the compiler.
#[derive(Debug)]
pub struct CompilerOptions {
    pub output: String,
    pub target_triple: String,
    pub optimization: Opt,
    pub emit_llvm: bool,
    pub emit_asm: bool,
    pub library: bool,
    pub executable: bool,
    pub linking: Linking,
    pub is_main: bool,
    pub insert_vector_natives: bool,
    pub restore_natives_apis: bool,
    pub restore_vector_natives: bool,
    pub reloc_mode: RelocMode,
    pub code_model: CodeModel,
    pub file_path: String,
    pub extra_args: String,
}

impl Default for Opt {
    fn default() -> (r: Opt)
        ensures
            r == Opt::Disabled,
    {
        Opt::Disabled
    }
}

impl Default for Linking {
    fn default() -> (r: Linking)
        ensures
            r == Linking::Static,
    {
        Linking::Static
    }
}

impl CompilerOptions {
    /// The default settings for the given target triple: no output name, no
    /// optimization, static linking, default relocation and code model, and every
    /// flag off.
    pub fn with_target_triple(target_triple: String) -> (r: CompilerOptions)
        ensures
            r.output@ == Seq::<char>::empty(),
            r.target_triple == target_triple,
            r.optimization == Opt::Disabled,
            !r.emit_llvm && !r.emit_asm && !r.library && !r.executable && !r.is_main,
            !r.insert_vector_natives && !r.restore_natives_apis && !r.restore_vector_natives,
            r.linking == Linking::Static,
            r.reloc_mode == RelocMode::Default,
            r.code_model == CodeModel::Default,
            r.file_path@ == Seq::<char>::empty(),
            r.extra_args@ == Seq::<char>::empty(),
    {
        CompilerOptions {
            output: String::new(),
            target_triple,
            optimization: Opt::default(),
            emit_llvm: false,
            emit_asm: false,
            library: false,
            executable: false,
            linking: Linking::default(),
            is_main: false,
            insert_vector_natives: false,
            restore_natives_apis: false,
            restore_vector_natives: false,
            reloc_mode: RelocMode::Default,
            code_model: CodeModel::Default,
            file_path: String::new(),
            extra_args: String::new(),
        }
    }
}

/// The command-line spelling of an optimization level: `O0`..`O3` bare, with one
/// leading `-` when either a single or a double dash is asked for.
pub open spec fn spec_opt_str(o: Opt, single_slash: bool, double_slash: bool) -> Seq<char> {
    let digit = match o {
        Opt::Disabled => "O0"@,
        Opt::Low => "O1"@,
        Opt::Mid => "O2"@,
        Opt::Mcqueen => "O3"@,
    };
    if single_slash || double_slash {
        "-"@ + digit
    } else {
        digit
    }
}

impl Opt {
    pub fn to_str(&self, single_slash: bool, double_slash: bool) -> (r: &str)
        ensures
            r@ == spec_opt_str(*self, single_slash, double_slash),
    {
        proof {
            reveal_strlit("O0");
            reveal_strlit("O1");
            reveal_strlit("O2");
            reveal_strlit("O3");
            reveal_strlit("-O0");
            reveal_strlit("-O1");
            reveal_strlit("-O2");
            reveal_strlit("-O3");
            reveal_strlit("-");
            assert("-O0"@ =~= "-"@ + "O0"@);
            assert("-O1"@ =~= "-"@ + "O1"@);
            assert("-O2"@ =~= "-"@ + "O2"@);
            assert("-O3"@ =~= "-"@ + "O3"@);
        }
        match self {
            Opt::Disabled if !single_slash && !double_slash => "O0",
            Opt::Low if !single_slash && !double_slash => "O1",
            Opt::Mid if !single_slash && !double_slash => "O2",
            Opt::Mcqueen if !single_slash && !double_slash => "O3",
            Opt::Disabled if single_slash => "-O0",
            Opt::Low if single_slash => "-O1",
            Opt::Mid if single_slash => "-O2",
            Opt::Mcqueen if single_slash => "-O3",
            Opt::Disabled if double_slash => "-O0",
            Opt::Low if double_slash => "-O1",
            Opt::Mid if double_slash => "-O2",
            Opt::Mcqueen if double_slash => "-O3",
            _ if single_slash => "-O0",
            _ if double_slash => "--O0",
            _ => "O0",
        }
    }

    /// The code generator's level for this setting.
    pub fn to_llvm_opt(&self) -> (r: OptimizationLevel)
        ensures
            r == match *self {
                Opt::Disabled => OptimizationLevel::Disabled,
                Opt::Low => OptimizationLevel::Default,
                Opt::Mid => OptimizationLevel::Less,
                Opt::Mcqueen => OptimizationLevel::Aggressive,
            },
    {
        match self {
            Opt::Disabled => OptimizationLevel::Disabled,
            Opt::Low => OptimizationLevel::Default,
            Opt::Mid => OptimizationLevel::Less,
            Opt::Mcqueen => OptimizationLevel::Aggressive,
        }
    }
}

impl Linking {
    pub fn to_str(&self) -> (r: &str)
        ensures
            r@ == match *self {
                Linking::Static => "--static"@,
                Linking::Dynamic => "-dynamic"@,
            },
    {
        match self {
            Linking::Static => "--static",
            Linking::Dynamic => "-dynamic",
        }
    }
}

} // verus!
