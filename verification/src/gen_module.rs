//! The output-side aggregate: an in-memory source module of generated
//! struct and function declarations, built append-only during the walk and
//! serialized to source text exactly once at the end of a run.

use vstd::prelude::*;

verus! {

/// A generated struct declaration: the entity's name, nothing more.
pub struct GeneratedStruct {
    pub name: String,
}

/// A generated function declaration: its name, its ordered attribute tags,
/// and its body, a single expression string.
pub struct GeneratedFunction {
    pub name: String,
    pub attrs: Vec<String>,
    pub body: String,
}

/// One declaration of the generated module, in emission order.
pub enum GeneratedDecl {
    Struct(GeneratedStruct),
    Function(GeneratedFunction),
}

/// The generated module: its name and its declarations in insertion order.
pub struct GeneratedModule {
    pub name: String,
    pub decls: Vec<GeneratedDecl>,
}

/// The view of a generated struct declaration.
pub struct StructDeclView {
    pub name: Seq<char>,
}

/// The view of a generated function declaration.
pub struct FunctionDeclView {
    pub name: Seq<char>,
    pub attrs: Seq<Seq<char>>,
    pub body: Seq<char>,
}

/// The view of one declaration.
pub enum DeclView {
    Struct(StructDeclView),
    Function(FunctionDeclView),
}

/// The view of the whole module: name and declarations in order.
pub struct ModuleView {
    pub name: Seq<char>,
    pub decls: Seq<DeclView>,
}

impl View for GeneratedStruct {
    type V = StructDeclView;

    open spec fn view(&self) -> StructDeclView {
        StructDeclView { name: self.name@ }
    }
}

impl View for GeneratedFunction {
    type V = FunctionDeclView;

    open spec fn view(&self) -> FunctionDeclView {
        FunctionDeclView {
            name: self.name@,
            attrs: self.attrs@.map_values(|a: String| a@),
            body: self.body@,
        }
    }
}

impl View for GeneratedDecl {
    type V = DeclView;

    open spec fn view(&self) -> DeclView {
        match self {
            GeneratedDecl::Struct(s) => DeclView::Struct(s@),
            GeneratedDecl::Function(f) => DeclView::Function(f@),
        }
    }
}

impl View for GeneratedModule {
    type V = ModuleView;

    open spec fn view(&self) -> ModuleView {
        ModuleView {
            name: self.name@,
            decls: self.decls@.map_values(|d: GeneratedDecl| d@),
        }
    }
}

impl GeneratedModule {
    /// An empty module keyed by the given name.
    pub fn new_module(name: String) -> (module: GeneratedModule)
        ensures
            module@.name == name@,
            module@.decls == Seq::<DeclView>::empty(),
    {
        let module = GeneratedModule { name, decls: Vec::new() };
        proof {
            assert(module@.decls =~= Seq::<DeclView>::empty());
        }
        module
    }

    /// Appends a struct declaration; insertion order is emission order.
    pub fn push_struct(&mut self, decl: GeneratedStruct)
        ensures
            final(self)@.name == old(self)@.name,
            final(self)@.decls == old(self)@.decls.push(DeclView::Struct(decl@)),
    {
        let ghost d = decl@;
        self.decls.push(GeneratedDecl::Struct(decl));
        proof {
            assert(self@.decls =~= old(self)@.decls.push(DeclView::Struct(d)));
        }
    }

    /// Appends a function declaration; insertion order is emission order.
    pub fn push_fn(&mut self, decl: GeneratedFunction)
        ensures
            final(self)@.name == old(self)@.name,
            final(self)@.decls == old(self)@.decls.push(DeclView::Function(decl@)),
    {
        let ghost d = decl@;
        self.decls.push(GeneratedDecl::Function(decl));
        proof {
            assert(self@.decls =~= old(self)@.decls.push(DeclView::Function(d)));
        }
    }
}

/// The source text that serializing a module produces: a fixed,
/// deterministic rendering of the module's name and of its declarations in
/// their insertion order.
pub uninterp spec fn module_text(module: ModuleView) -> Seq<char>;

/// Relies on codegen's `Scope::to_string`: the module is rebuilt one
/// declaration at a time with `Module::new`, `Struct::new`, `push_struct`,
/// `Function::new`, `attr`, `line` and `push_fn`, wrapped in a fresh
/// `Scope`, and rendered; the rendering is a pure, deterministic function
/// of the scope's contents, so the text depends on the module's view alone.
#[verifier::external_body]
pub(crate) fn serialize(module: &GeneratedModule) -> (text: String)
    ensures
        text@ == module_text(module@),
{
    let mut rendered = codegen::Module::new(module.name.as_str());
    for decl in module.decls.iter() {
        match decl {
            GeneratedDecl::Struct(s) => { rendered.push_struct(codegen::Struct::new(s.name.as_str())); }
            GeneratedDecl::Function(f) => {
                let mut func = codegen::Function::new(f.name.as_str());
                for attr in f.attrs.iter() { func.attr(attr); }
                func.line(f.body.as_str());
                rendered.push_fn(func);
            }
        }
    }
    codegen::Scope::new().push_module(rendered).to_string()
}

} // verus!
