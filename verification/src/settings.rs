//! The settings of schema processing, and their form with shared
//! identifiers.

use crate::import_resolver::{spec_union, union_into};
use crate::model::DeepValue;
use crate::ordered::OrderedMap;
use crate::types_v2::{Intern, StringPool, Symbol};
use vstd::prelude::*;

verus! {

/// Where imports are looked for.
#[derive(Debug)]
pub struct ImportSettings {
    /// The directories in which imports are looked for, in order.
    pub search_paths: Vec<String>,
    /// The base of relative URL imports.
    pub base_url: Option<String>,
    /// Other names for imports.
    pub aliases: OrderedMap<String>,
}

/// What a [`ImportSettings`] holds, as mathematical values.
pub struct ImportSettingsView {
    pub search_paths: Seq<Seq<char>>,
    pub base_url: Option<Seq<char>>,
    pub aliases: Seq<(Seq<char>, Seq<char>)>,
}

impl DeepView for ImportSettings {
    type V = ImportSettingsView;

    open spec fn deep_view(&self) -> ImportSettingsView {
        ImportSettingsView {
            search_paths: self.search_paths.deep_view(),
            base_url: self.base_url.deep_view(),
            aliases: self.aliases.deep_view(),
        }
    }
}

impl DeepValue for ImportSettings {
    fn deep_clone(&self) -> (r: Self) {
        ImportSettings {
            search_paths: self.search_paths.deep_clone(),
            base_url: self.base_url.deep_clone(),
            aliases: self.aliases.deep_clone(),
        }
    }

    fn deep_eq(&self, other: &Self) -> (r: bool) {
        self.search_paths.deep_eq(&other.search_paths)
            && self.base_url.deep_eq(&other.base_url)
            && self.aliases.deep_eq(&other.aliases)
    }
}

impl ImportSettingsView {
    /// The value that holds nothing.
    pub open spec fn empty() -> ImportSettingsView {
        ImportSettingsView {
            search_paths: Seq::<Seq<char>>::empty(),
            base_url: None,
            aliases: Seq::<(Seq<char>, Seq<char>)>::empty(),
        }
    }
}

impl ImportSettings {
    /// A value that holds nothing.
    pub fn new() -> (r: Self)
        ensures
            r.deep_view() == ImportSettingsView::empty(),
    {
        let r = ImportSettings {
            search_paths: Vec::new(),
            base_url: None,
            aliases: OrderedMap::new(),
        };
        proof {
            assert(r.search_paths.deep_view() =~= Seq::empty());
            assert(r.aliases.deep_view() =~= Seq::empty());
        }
        r
    }
}

/// What holds where a schema says nothing.
#[derive(Debug)]
pub struct DefaultSettings {
    /// The range of slots that have none.
    pub slot_range: Option<String>,
}

/// What a [`DefaultSettings`] holds, as mathematical values.
pub struct DefaultSettingsView {
    pub slot_range: Option<Seq<char>>,
}

impl DeepView for DefaultSettings {
    type V = DefaultSettingsView;

    open spec fn deep_view(&self) -> DefaultSettingsView {
        DefaultSettingsView {
            slot_range: self.slot_range.deep_view(),
        }
    }
}

impl DeepValue for DefaultSettings {
    fn deep_clone(&self) -> (r: Self) {
        DefaultSettings {
            slot_range: self.slot_range.deep_clone(),
        }
    }

    fn deep_eq(&self, other: &Self) -> (r: bool) {
        self.slot_range.deep_eq(&other.slot_range)
    }
}

impl DefaultSettingsView {
    /// The value that holds nothing.
    pub open spec fn empty() -> DefaultSettingsView {
        DefaultSettingsView {
            slot_range: None,
        }
    }
}

impl DefaultSettings {
    /// A value that holds nothing.
    pub fn new() -> (r: Self)
        ensures
            r.deep_view() == DefaultSettingsView::empty(),
    {
        let r = DefaultSettings {
            slot_range: None,
        };
        r
    }
}

/// How code is generated for one language.
#[derive(Debug)]
pub struct LanguageOptions {
    /// The name of the package.
    pub package_name: Option<String>,
    /// What the generated code imports.
    pub imports: Vec<String>,
    /// The type of the language for each type of the schema.
    pub type_mappings: OrderedMap<String>,
    /// The features that are switched on.
    pub features: Vec<String>,
}

/// What a [`LanguageOptions`] holds, as mathematical values.
pub struct LanguageOptionsView {
    pub package_name: Option<Seq<char>>,
    pub imports: Seq<Seq<char>>,
    pub type_mappings: Seq<(Seq<char>, Seq<char>)>,
    pub features: Seq<Seq<char>>,
}

impl DeepView for LanguageOptions {
    type V = LanguageOptionsView;

    open spec fn deep_view(&self) -> LanguageOptionsView {
        LanguageOptionsView {
            package_name: self.package_name.deep_view(),
            imports: self.imports.deep_view(),
            type_mappings: self.type_mappings.deep_view(),
            features: self.features.deep_view(),
        }
    }
}

impl DeepValue for LanguageOptions {
    fn deep_clone(&self) -> (r: Self) {
        LanguageOptions {
            package_name: self.package_name.deep_clone(),
            imports: self.imports.deep_clone(),
            type_mappings: self.type_mappings.deep_clone(),
            features: self.features.deep_clone(),
        }
    }

    fn deep_eq(&self, other: &Self) -> (r: bool) {
        self.package_name.deep_eq(&other.package_name)
            && self.imports.deep_eq(&other.imports)
            && self.type_mappings.deep_eq(&other.type_mappings)
            && self.features.deep_eq(&other.features)
    }
}

impl LanguageOptionsView {
    /// The value that holds nothing.
    pub open spec fn empty() -> LanguageOptionsView {
        LanguageOptionsView {
            package_name: None,
            imports: Seq::<Seq<char>>::empty(),
            type_mappings: Seq::<(Seq<char>, Seq<char>)>::empty(),
            features: Seq::<Seq<char>>::empty(),
        }
    }
}

impl LanguageOptions {
    /// A value that holds nothing.
    pub fn new() -> (r: Self)
        ensures
            r.deep_view() == LanguageOptionsView::empty(),
    {
        let r = LanguageOptions {
            package_name: None,
            imports: Vec::new(),
            type_mappings: OrderedMap::new(),
            features: Vec::new(),
        };
        proof {
            assert(r.imports.deep_view() =~= Seq::empty());
            assert(r.type_mappings.deep_view() =~= Seq::empty());
            assert(r.features.deep_view() =~= Seq::empty());
        }
        r
    }
}

/// How code is generated.
#[derive(Debug)]
pub struct GenerationSettings {
    /// The options for each language, by its name.
    pub language_options: OrderedMap<LanguageOptions>,
}

/// What a [`GenerationSettings`] holds, as mathematical values.
pub struct GenerationSettingsView {
    pub language_options: Seq<(Seq<char>, LanguageOptionsView)>,
}

impl DeepView for GenerationSettings {
    type V = GenerationSettingsView;

    open spec fn deep_view(&self) -> GenerationSettingsView {
        GenerationSettingsView {
            language_options: self.language_options.deep_view(),
        }
    }
}

impl DeepValue for GenerationSettings {
    fn deep_clone(&self) -> (r: Self) {
        GenerationSettings {
            language_options: self.language_options.deep_clone(),
        }
    }

    fn deep_eq(&self, other: &Self) -> (r: bool) {
        self.language_options.deep_eq(&other.language_options)
    }
}

impl GenerationSettingsView {
    /// The value that holds nothing.
    pub open spec fn empty() -> GenerationSettingsView {
        GenerationSettingsView {
            language_options: Seq::<(Seq<char>, LanguageOptionsView)>::empty(),
        }
    }
}

impl GenerationSettings {
    /// A value that holds nothing.
    pub fn new() -> (r: Self)
        ensures
            r.deep_view() == GenerationSettingsView::empty(),
    {
        let r = GenerationSettings {
            language_options: OrderedMap::new(),
        };
        proof {
            assert(r.language_options.deep_view() =~= Seq::empty());
        }
        r
    }
}

/// The settings of schema processing.
#[derive(Debug)]
pub struct SchemaSettings {
    /// Where imports are looked for.
    pub imports: Option<ImportSettings>,
    /// What holds where a schema says nothing.
    pub defaults: Option<DefaultSettings>,
    /// How code is generated.
    pub generation: Option<GenerationSettings>,
}

/// What a [`SchemaSettings`] holds, as mathematical values.
pub struct SchemaSettingsView {
    pub imports: Option<ImportSettingsView>,
    pub defaults: Option<DefaultSettingsView>,
    pub generation: Option<GenerationSettingsView>,
}

impl DeepView for SchemaSettings {
    type V = SchemaSettingsView;

    open spec fn deep_view(&self) -> SchemaSettingsView {
        SchemaSettingsView {
            imports: self.imports.deep_view(),
            defaults: self.defaults.deep_view(),
            generation: self.generation.deep_view(),
        }
    }
}

impl DeepValue for SchemaSettings {
    fn deep_clone(&self) -> (r: Self) {
        SchemaSettings {
            imports: self.imports.deep_clone(),
            defaults: self.defaults.deep_clone(),
            generation: self.generation.deep_clone(),
        }
    }

    fn deep_eq(&self, other: &Self) -> (r: bool) {
        self.imports.deep_eq(&other.imports)
            && self.defaults.deep_eq(&other.defaults)
            && self.generation.deep_eq(&other.generation)
    }
}

impl SchemaSettingsView {
    /// The value that holds nothing.
    pub open spec fn empty() -> SchemaSettingsView {
        SchemaSettingsView {
            imports: None,
            defaults: None,
            generation: None,
        }
    }
}

impl SchemaSettings {
    /// A value that holds nothing.
    pub fn new() -> (r: Self)
        ensures
            r.deep_view() == SchemaSettingsView::empty(),
    {
        let r = SchemaSettings {
            imports: None,
            defaults: None,
            generation: None,
        };
        r
    }
}

/// The settings of schema processing in one record, with shared identifiers.
#[derive(Debug)]
pub struct SchemaSettingsV2 {
    /// The directories in which imports are looked for, in order.
    pub search_paths: Vec<Symbol>,
    /// The base of relative URL imports.
    pub base_url: Option<Symbol>,
    /// Other names for imports.
    pub aliases: OrderedMap<Symbol>,
    /// The range of slots that have none.
    pub slot_range: Option<Symbol>,
    /// The name of the package of the generated code.
    pub package_name: Option<Symbol>,
    /// What the generated code imports.
    pub imports: Vec<Symbol>,
    /// The type of the language for each type of the schema.
    pub type_mappings: OrderedMap<Symbol>,
    /// The features that are switched on.
    pub features: Vec<Symbol>,
}

/// What a [`SchemaSettingsV2`] holds, as mathematical values.
pub struct SchemaSettingsV2View {
    pub search_paths: Seq<Seq<char>>,
    pub base_url: Option<Seq<char>>,
    pub aliases: Seq<(Seq<char>, Seq<char>)>,
    pub slot_range: Option<Seq<char>>,
    pub package_name: Option<Seq<char>>,
    pub imports: Seq<Seq<char>>,
    pub type_mappings: Seq<(Seq<char>, Seq<char>)>,
    pub features: Seq<Seq<char>>,
}

impl DeepView for SchemaSettingsV2 {
    type V = SchemaSettingsV2View;

    open spec fn deep_view(&self) -> SchemaSettingsV2View {
        SchemaSettingsV2View {
            search_paths: self.search_paths.deep_view(),
            base_url: self.base_url.deep_view(),
            aliases: self.aliases.deep_view(),
            slot_range: self.slot_range.deep_view(),
            package_name: self.package_name.deep_view(),
            imports: self.imports.deep_view(),
            type_mappings: self.type_mappings.deep_view(),
            features: self.features.deep_view(),
        }
    }
}

impl DeepValue for SchemaSettingsV2 {
    fn deep_clone(&self) -> (r: Self) {
        SchemaSettingsV2 {
            search_paths: self.search_paths.deep_clone(),
            base_url: self.base_url.deep_clone(),
            aliases: self.aliases.deep_clone(),
            slot_range: self.slot_range.deep_clone(),
            package_name: self.package_name.deep_clone(),
            imports: self.imports.deep_clone(),
            type_mappings: self.type_mappings.deep_clone(),
            features: self.features.deep_clone(),
        }
    }

    fn deep_eq(&self, other: &Self) -> (r: bool) {
        self.search_paths.deep_eq(&other.search_paths)
            && self.base_url.deep_eq(&other.base_url)
            && self.aliases.deep_eq(&other.aliases)
            && self.slot_range.deep_eq(&other.slot_range)
            && self.package_name.deep_eq(&other.package_name)
            && self.imports.deep_eq(&other.imports)
            && self.type_mappings.deep_eq(&other.type_mappings)
            && self.features.deep_eq(&other.features)
    }
}

/// The options of the languages, in order; none where nothing is said of
/// generation.
pub open spec fn spec_options(v: SchemaSettingsView) -> Seq<(Seq<char>, LanguageOptionsView)> {
    match v.generation {
        Some(g) => g.language_options,
        None => Seq::empty(),
    }
}

/// The package name of the first language, from the `i`-th on, that has one.
pub open spec fn spec_first_package(options: Seq<(Seq<char>, LanguageOptionsView)>, i: int)
    -> Option<Seq<char>>
    decreases options.len() - i,
{
    if !(0 <= i < options.len()) {
        None
    } else if options[i].1.package_name is Some {
        options[i].1.package_name
    } else {
        spec_first_package(options, i + 1)
    }
}

/// What the generated code imports for the languages from the `i`-th on,
/// after `acc`.
pub open spec fn spec_all_imports(
    options: Seq<(Seq<char>, LanguageOptionsView)>,
    i: int,
    acc: Seq<Seq<char>>,
) -> Seq<Seq<char>>
    decreases options.len() - i,
{
    if !(0 <= i < options.len()) {
        acc
    } else {
        spec_all_imports(options, i + 1, acc + options[i].1.imports)
    }
}

/// The features of the languages from the `i`-th on, after `acc`.
pub open spec fn spec_all_features(
    options: Seq<(Seq<char>, LanguageOptionsView)>,
    i: int,
    acc: Seq<Seq<char>>,
) -> Seq<Seq<char>>
    decreases options.len() - i,
{
    if !(0 <= i < options.len()) {
        acc
    } else {
        spec_all_features(options, i + 1, acc + options[i].1.features)
    }
}

/// The type mappings of the languages from the `i`-th on, merged into
/// `acc`: where two languages map one type, the mapping of the first stays.
pub open spec fn spec_all_mappings(
    options: Seq<(Seq<char>, LanguageOptionsView)>,
    i: int,
    acc: Seq<(Seq<char>, Seq<char>)>,
) -> Seq<(Seq<char>, Seq<char>)>
    decreases options.len() - i,
{
    if !(0 <= i < options.len()) {
        acc
    } else {
        spec_all_mappings(options, i + 1, spec_union(acc, options[i].1.type_mappings, 0))
    }
}

/// Appends copies of the strings of `more` to `out`.
fn extend_strings(out: &mut Vec<String>, more: &Vec<String>)
    ensures
        final(out).deep_view() == old(out).deep_view() + more.deep_view(),
{
    let mut i: usize = 0;
    while i < more.len()
        invariant
            i <= more.len(),
            out.deep_view() == old(out).deep_view() + more.deep_view().take(i as int),
        decreases more.len() - i,
    {
        let ghost before = out.deep_view();
        out.push(more[i].clone());
        i += 1;
        assert(out.deep_view() =~= old(out).deep_view() + more.deep_view().take(i as int)) by {
            assert(out.deep_view() =~= before.push(more.deep_view()[i - 1]));
            assert(more.deep_view().take(i as int) =~= more.deep_view().take(i - 1).push(
                more.deep_view()[i - 1],
            ));
        }
    }
    assert(more.deep_view().take(more.len() as int) =~= more.deep_view());
}

impl Intern for SchemaSettings {
    type Target = SchemaSettingsV2;

    /// The settings in one record: where imports are looked for, the
    /// default range, and what the languages say of generation, in the order
    /// of the languages.
    open spec fn spec_intern(v: SchemaSettingsView) -> SchemaSettingsV2View {
        SchemaSettingsV2View {
            search_paths: match v.imports {
                Some(i) => i.search_paths,
                None => Seq::empty(),
            },
            base_url: match v.imports {
                Some(i) => i.base_url,
                None => None,
            },
            aliases: match v.imports {
                Some(i) => i.aliases,
                None => Seq::empty(),
            },
            slot_range: match v.defaults {
                Some(d) => d.slot_range,
                None => None,
            },
            package_name: spec_first_package(spec_options(v), 0),
            imports: spec_all_imports(spec_options(v), 0, Seq::empty()),
            type_mappings: spec_all_mappings(spec_options(v), 0, Seq::empty()),
            features: spec_all_features(spec_options(v), 0, Seq::empty()),
        }
    }

    #[verifier::loop_isolation(false)]
    fn intern(&self, pool: &mut StringPool) -> (r: SchemaSettingsV2) {
        let empty_list: Vec<String> = Vec::new();
        let empty_map: OrderedMap<String> = OrderedMap::new();
        assert(empty_list.deep_view() =~= Seq::empty());
        assert(empty_map.deep_view() =~= Seq::empty());
        let search_paths = match &self.imports {
            Some(i) => pool.intern_vec(&i.search_paths),
            None => pool.intern_vec(&empty_list),
        };
        let base_url = match &self.imports {
            Some(i) => pool.intern_option(&i.base_url),
            None => None,
        };
        let aliases = match &self.imports {
            Some(i) => pool.intern_values(&i.aliases),
            None => pool.intern_values(&empty_map),
        };
        let slot_range = match &self.defaults {
            Some(d) => pool.intern_option(&d.slot_range),
            None => None,
        };
        let mut package: Option<String> = None;
        let mut imports: Vec<String> = Vec::new();
        let mut mappings: OrderedMap<String> = OrderedMap::new();
        let mut features: Vec<String> = Vec::new();
        assert(imports.deep_view() =~= Seq::empty());
        assert(features.deep_view() =~= Seq::empty());
        assert(mappings.deep_view() =~= Seq::empty());
        let ghost options = spec_options(self.deep_view());
        match &self.generation {
            None => {},
            Some(g) => {
                let n = g.language_options.len();
                let mut i: usize = 0;
                while i < n
                    invariant
                        i <= n,
                        n == g.language_options.keys().len(),
                        options == g.language_options.deep_view(),
                        spec_first_package(options, 0) == (if package is Some {
                            package.deep_view()
                        } else {
                            spec_first_package(options, i as int)
                        }),
                        spec_all_imports(options, 0, Seq::empty()) == spec_all_imports(
                            options,
                            i as int,
                            imports.deep_view(),
                        ),
                        spec_all_features(options, 0, Seq::empty()) == spec_all_features(
                            options,
                            i as int,
                            features.deep_view(),
                        ),
                        spec_all_mappings(options, 0, Seq::empty()) == spec_all_mappings(
                            options,
                            i as int,
                            mappings.deep_view(),
                        ),
                    decreases n - i,
                {
                    match g.language_options.get_index(i) {
                        Some((_, o)) => {
                            assert(o.deep_view() == options[i as int].1);
                            if package.is_none() {
                                package = o.package_name.deep_clone();
                            }
                            extend_strings(&mut imports, &o.imports);
                            extend_strings(&mut features, &o.features);
                            union_into(&mut mappings, &o.type_mappings);
                        },
                        None => {},
                    }
                    i += 1;
                }
            },
        }
        let package_name = pool.intern_option(&package);
        let imports = pool.intern_vec(&imports);
        let type_mappings = pool.intern_values(&mappings);
        let features = pool.intern_vec(&features);
        SchemaSettingsV2 {
            search_paths,
            base_url,
            aliases,
            slot_range,
            package_name,
            imports,
            type_mappings,
            features,
        }
    }
}

} // verus!
