//! What the server tells a client about itself: its identity, and the list
//! of its tools with the arguments that each one takes.
use vstd::prelude::*;
use crate::protocol::{Tool, lemma_tool_name_round_trip, tool_name, tool_named};
use crate::text::owned;
use crate::tools::{list1, list2, list3, texts};

verus! {

/// The identity the server gives in its answer to `initialize`, with the
/// capabilities it declares (each with no options).
pub struct ServerInfo {
    pub protocol_version: String,
    pub name: String,
    pub version: String,
    pub capabilities: Vec<String>,
}

/// The identity of the server: protocol `2024-11-05`, `local-rust-mcp`
/// version `0.1.0`, offering tools and resources.
pub fn server_info() -> (r: ServerInfo)
    ensures
        r.protocol_version@ == "2024-11-05"@,
        r.name@ == "local-rust-mcp"@,
        r.version@ == "0.1.0"@,
        texts(r.capabilities@) == seq!["tools"@, "resources"@],
{
    ServerInfo {
        protocol_version: owned("2024-11-05"),
        name: owned("local-rust-mcp"),
        version: owned("0.1.0"),
        capabilities: list2(owned("tools"), owned("resources")),
    }
}

/// The JSON type of an argument.
pub enum PropertyKind {
    /// A string.
    Text,
    /// A boolean.
    Boolean,
    /// One of a fixed list of strings.
    OneOf(Vec<String>),
}

/// The mathematical value of a `PropertyKind`.
pub enum PropertyKindView {
    Text,
    Boolean,
    OneOf(Seq<Seq<char>>),
}

impl View for PropertyKind {
    type V = PropertyKindView;

    open spec fn view(&self) -> PropertyKindView {
        match self {
            PropertyKind::Text => PropertyKindView::Text,
            PropertyKind::Boolean => PropertyKindView::Boolean,
            PropertyKind::OneOf(v) => PropertyKindView::OneOf(texts(v@)),
        }
    }
}

/// An argument that a tool takes: its name, its type and what it is for.
pub struct Property {
    pub name: String,
    pub kind: PropertyKind,
    pub description: String,
}

/// The mathematical value of a `Property`.
pub struct PropertyView {
    pub name: Seq<char>,
    pub kind: PropertyKindView,
    pub description: Seq<char>,
}

impl View for Property {
    type V = PropertyView;

    open spec fn view(&self) -> PropertyView {
        PropertyView { name: self.name@, kind: self.kind@, description: self.description@ }
    }
}

/// The description of a tool in the list of tools: its name, what it does,
/// the arguments that must be given (when the schema lists them) and all the
/// arguments it takes.
pub struct ToolDescriptor {
    pub name: String,
    pub description: String,
    pub required: Option<Vec<String>>,
    pub properties: Vec<Property>,
}

/// The mathematical value of a `ToolDescriptor`.
pub struct ToolDescriptorView {
    pub name: Seq<char>,
    pub description: Seq<char>,
    pub required: Option<Seq<Seq<char>>>,
    pub properties: Seq<PropertyView>,
}

/// The views of a list of properties.
pub open spec fn properties_view(v: Seq<Property>) -> Seq<PropertyView> {
    v.map_values(|p: Property| p@)
}

impl View for ToolDescriptor {
    type V = ToolDescriptorView;

    open spec fn view(&self) -> ToolDescriptorView {
        ToolDescriptorView {
            name: self.name@,
            description: self.description@,
            required: match self.required {
                Some(r) => Some(texts(r@)),
                None => None,
            },
            properties: properties_view(self.properties@),
        }
    }
}

/// A string argument.
pub open spec fn text_property(name: Seq<char>, description: Seq<char>) -> PropertyView {
    PropertyView { name, kind: PropertyKindView::Text, description }
}

/// The description of each tool, as the list of tools gives it.
pub open spec fn descriptor_view(t: Tool) -> ToolDescriptorView {
    let name = tool_name(t);
    match t {
        Tool::GitStatus => ToolDescriptorView {
            name,
            description: "Lance 'git status' pour voir les modifications."@,
            required: None,
            properties: seq![],
        },
        Tool::GitAdd => ToolDescriptorView {
            name,
            description: "Ajoute des fichiers à l'index Git (git add)."@,
            required: Some(seq!["files"@]),
            properties: seq![
                text_property("path"@, "Chemin du dépôt (optionnel)"@),
                text_property("files"@, "Fichiers à ajouter (ex: '.', 'src/main.rs')"@),
            ],
        },
        Tool::GitCommit => ToolDescriptorView {
            name,
            description: "Crée un commit avec les modifications indexées (git commit -m)."@,
            required: Some(seq!["message"@]),
            properties: seq![
                text_property("path"@, "Chemin du dépôt (optionnel)"@),
                text_property("message"@, "Message du commit"@),
            ],
        },
        Tool::WriteFile => ToolDescriptorView {
            name,
            description: "Écrit ou remplace ENTIÈREMENT le contenu d'un fichier existant."@,
            required: Some(seq!["path"@, "content"@]),
            properties: seq![
                text_property("path"@, "Chemin du fichier"@),
                text_property("content"@, "Nouveau contenu complet du fichier"@),
            ],
        },
        Tool::ReadFile => ToolDescriptorView {
            name,
            description: "Lit le contenu d'un fichier et le renvoie."@,
            required: Some(seq!["path"@]),
            properties: seq![
                text_property("path"@, "Chemin absolu ou relatif du fichier à lire"@),
            ],
        },
        Tool::RenameFile => ToolDescriptorView {
            name,
            description: "Renomme un fichier."@,
            required: Some(seq!["old_path"@, "new_path"@]),
            properties: seq![
                text_property("old_path"@, "L'ancien chemin du fichier"@),
                text_property("new_path"@, "Le nouveau chemin du fichier"@),
            ],
        },
        Tool::ReplaceTextInFile => ToolDescriptorView {
            name,
            description: "Cherche un bloc de texte précis dans un fichier et le remplace par un nouveau. Très utile pour modifier ou supprimer une portion de code (si new_text est vide) sans réécrire tout le fichier."@,
            required: Some(seq!["path"@, "old_text"@, "new_text"@]),
            properties: seq![
                text_property("path"@, "Chemin du fichier"@),
                text_property("old_text"@, "Le texte exact à remplacer"@),
                text_property("new_text"@, "Le nouveau texte. Peut être vide '' pour une suppression."@),
            ],
        },
        Tool::RunCommand => ToolDescriptorView {
            name,
            description: "Exécute une commande PowerShell dans un terminal (ex: ls, dir). Attention: la commande 'cd' ne sauvegarde pas son état pour l'appel suivant (utilisez l'argument 'cwd' pour définir le dossier)."@,
            required: Some(seq!["command"@]),
            properties: seq![
                text_property("command"@, "La commande à exécuter"@),
                text_property("cwd"@, "Le dossier cible depuis lequel lancer la commande"@),
            ],
        },
        Tool::ObsidianCreate => ToolDescriptorView {
            name,
            description: "Créer une nouvelle note Obsidian."@,
            required: None,
            properties: seq![
                text_property("name"@, "Nom du fichier (ex: 'Nouvelle Note')"@),
                text_property("path"@, "Chemin du fichier (ex: 'Dossier/Nouvelle Note.md')"@),
                text_property("content"@, "Le contenu de la note"@),
                text_property("vault"@, "Le nom du vault cible (optionnel)"@),
                PropertyView {
                    name: "overwrite"@,
                    kind: PropertyKindView::Boolean,
                    description: "Écraser si le fichier existe"@,
                },
            ],
        },
        Tool::ObsidianAppend => ToolDescriptorView {
            name,
            description: "Ajouter du contenu à la fin d'une note Obsidian."@,
            required: Some(seq!["content"@]),
            properties: seq![
                text_property("file"@, "Nom du fichier"@),
                text_property("path"@, "Chemin du fichier"@),
                text_property("content"@, "Le contenu à ajouter"@),
                text_property("vault"@, "Le nom du vault cible (optionnel)"@),
            ],
        },
        Tool::ObsidianRead => ToolDescriptorView {
            name,
            description: "Lire le contenu d'une note Obsidian."@,
            required: None,
            properties: seq![
                text_property("file"@, "Nom du fichier"@),
                text_property("path"@, "Chemin du fichier"@),
                text_property("vault"@, "Le nom du vault cible (optionnel)"@),
            ],
        },
        Tool::ObsidianSearch => ToolDescriptorView {
            name,
            description: "Chercher du texte dans le vault Obsidian."@,
            required: Some(seq!["query"@]),
            properties: seq![
                text_property("query"@, "Le texte à rechercher"@),
                text_property("vault"@, "Le nom du vault cible (optionnel)"@),
                PropertyView {
                    name: "format"@,
                    kind: PropertyKindView::OneOf(seq!["text"@, "json"@]),
                    description: "Le format de sortie (text ou json)"@,
                },
            ],
        },
    }
}

/// The tools in the order in which the list gives them.
pub open spec fn listed_tools() -> Seq<Tool> {
    seq![
        Tool::GitStatus,
        Tool::GitAdd,
        Tool::GitCommit,
        Tool::WriteFile,
        Tool::ReadFile,
        Tool::RenameFile,
        Tool::ReplaceTextInFile,
        Tool::RunCommand,
        Tool::ObsidianCreate,
        Tool::ObsidianAppend,
        Tool::ObsidianRead,
        Tool::ObsidianSearch,
    ]
}

fn text_prop(name: &str, description: &str) -> (p: Property)
    ensures
        p@ == text_property(name@, description@),
{
    Property { name: owned(name), kind: PropertyKind::Text, description: owned(description) }
}

fn push_prop(v: &mut Vec<Property>, p: Property)
    ensures
        properties_view(final(v)@) == properties_view(old(v)@).push(p@),
{
    let ghost before = v@;
    v.push(p);
    assert(properties_view(v@) =~= properties_view(before).push(p@));
}

fn no_props() -> (v: Vec<Property>)
    ensures
        properties_view(v@) == Seq::<PropertyView>::empty(),
{
    let v: Vec<Property> = Vec::new();
    assert(properties_view(v@) =~= Seq::<PropertyView>::empty());
    v
}

fn descriptor(
    name: &str,
    description: &str,
    required: Option<Vec<String>>,
    properties: Vec<Property>,
) -> (d: ToolDescriptor)
    ensures
        d.name@ == name@,
        d.description@ == description@,
        d.required == required,
        d.properties == properties,
{
    ToolDescriptor { name: owned(name), description: owned(description), required, properties }
}

/// The description of one tool.
pub fn describe(t: Tool) -> (d: ToolDescriptor)
    ensures
        d@ == descriptor_view(t),
{
    let mut p = no_props();
    let d = match t {
        Tool::GitStatus => descriptor(
            "git_status",
            "Lance 'git status' pour voir les modifications.",
            None,
            p,
        ),
        Tool::GitAdd => {
            push_prop(&mut p, text_prop("path", "Chemin du dépôt (optionnel)"));
            push_prop(&mut p, text_prop("files", "Fichiers à ajouter (ex: '.', 'src/main.rs')"));
            descriptor(
                "git_add",
                "Ajoute des fichiers à l'index Git (git add).",
                Some(list1(owned("files"))),
                p,
            )
        },
        Tool::GitCommit => {
            push_prop(&mut p, text_prop("path", "Chemin du dépôt (optionnel)"));
            push_prop(&mut p, text_prop("message", "Message du commit"));
            descriptor(
                "git_commit",
                "Crée un commit avec les modifications indexées (git commit -m).",
                Some(list1(owned("message"))),
                p,
            )
        },
        Tool::WriteFile => {
            push_prop(&mut p, text_prop("path", "Chemin du fichier"));
            push_prop(&mut p, text_prop("content", "Nouveau contenu complet du fichier"));
            descriptor(
                "write_file",
                "Écrit ou remplace ENTIÈREMENT le contenu d'un fichier existant.",
                Some(list2(owned("path"), owned("content"))),
                p,
            )
        },
        Tool::ReadFile => {
            push_prop(&mut p, text_prop("path", "Chemin absolu ou relatif du fichier à lire"));
            descriptor(
                "read_file",
                "Lit le contenu d'un fichier et le renvoie.",
                Some(list1(owned("path"))),
                p,
            )
        },
        Tool::RenameFile => {
            push_prop(&mut p, text_prop("old_path", "L'ancien chemin du fichier"));
            push_prop(&mut p, text_prop("new_path", "Le nouveau chemin du fichier"));
            descriptor(
                "rename_file",
                "Renomme un fichier.",
                Some(list2(owned("old_path"), owned("new_path"))),
                p,
            )
        },
        Tool::ReplaceTextInFile => {
            push_prop(&mut p, text_prop("path", "Chemin du fichier"));
            push_prop(&mut p, text_prop("old_text", "Le texte exact à remplacer"));
            push_prop(
                &mut p,
                text_prop("new_text", "Le nouveau texte. Peut être vide '' pour une suppression."),
            );
            descriptor(
                "replace_text_in_file",
                "Cherche un bloc de texte précis dans un fichier et le remplace par un nouveau. Très utile pour modifier ou supprimer une portion de code (si new_text est vide) sans réécrire tout le fichier.",
                Some(list3(owned("path"), owned("old_text"), owned("new_text"))),
                p,
            )
        },
        Tool::RunCommand => {
            push_prop(&mut p, text_prop("command", "La commande à exécuter"));
            push_prop(
                &mut p,
                text_prop("cwd", "Le dossier cible depuis lequel lancer la commande"),
            );
            descriptor(
                "run_command",
                "Exécute une commande PowerShell dans un terminal (ex: ls, dir). Attention: la commande 'cd' ne sauvegarde pas son état pour l'appel suivant (utilisez l'argument 'cwd' pour définir le dossier).",
                Some(list1(owned("command"))),
                p,
            )
        },
        Tool::ObsidianCreate => {
            push_prop(&mut p, text_prop("name", "Nom du fichier (ex: 'Nouvelle Note')"));
            push_prop(&mut p, text_prop("path", "Chemin du fichier (ex: 'Dossier/Nouvelle Note.md')"));
            push_prop(&mut p, text_prop("content", "Le contenu de la note"));
            push_prop(&mut p, text_prop("vault", "Le nom du vault cible (optionnel)"));
            push_prop(
                &mut p,
                Property {
                    name: owned("overwrite"),
                    kind: PropertyKind::Boolean,
                    description: owned("Écraser si le fichier existe"),
                },
            );
            descriptor("obsidian_create", "Créer une nouvelle note Obsidian.", None, p)
        },
        Tool::ObsidianAppend => {
            push_prop(&mut p, text_prop("file", "Nom du fichier"));
            push_prop(&mut p, text_prop("path", "Chemin du fichier"));
            push_prop(&mut p, text_prop("content", "Le contenu à ajouter"));
            push_prop(&mut p, text_prop("vault", "Le nom du vault cible (optionnel)"));
            descriptor(
                "obsidian_append",
                "Ajouter du contenu à la fin d'une note Obsidian.",
                Some(list1(owned("content"))),
                p,
            )
        },
        Tool::ObsidianRead => {
            push_prop(&mut p, text_prop("file", "Nom du fichier"));
            push_prop(&mut p, text_prop("path", "Chemin du fichier"));
            push_prop(&mut p, text_prop("vault", "Le nom du vault cible (optionnel)"));
            descriptor("obsidian_read", "Lire le contenu d'une note Obsidian.", None, p)
        },
        Tool::ObsidianSearch => {
            push_prop(&mut p, text_prop("query", "Le texte à rechercher"));
            push_prop(&mut p, text_prop("vault", "Le nom du vault cible (optionnel)"));
            push_prop(
                &mut p,
                Property {
                    name: owned("format"),
                    kind: PropertyKind::OneOf(list2(owned("text"), owned("json"))),
                    description: owned("Le format de sortie (text ou json)"),
                },
            );
            descriptor(
                "obsidian_search",
                "Chercher du texte dans le vault Obsidian.",
                Some(list1(owned("query"))),
                p,
            )
        },
    };
    assert(d@.properties =~= descriptor_view(t).properties);
    d
}

/// The views of a list of tool descriptions.
pub open spec fn descriptors_view(v: Seq<ToolDescriptor>) -> Seq<ToolDescriptorView> {
    v.map_values(|d: ToolDescriptor| d@)
}

/// The list of tools that `tools/list` answers with.
pub fn tool_catalog() -> (r: Vec<ToolDescriptor>)
    ensures
        descriptors_view(r@) == listed_tools().map_values(|t: Tool| descriptor_view(t)),
{
    let order: [Tool; 12] = [
        Tool::GitStatus,
        Tool::GitAdd,
        Tool::GitCommit,
        Tool::WriteFile,
        Tool::ReadFile,
        Tool::RenameFile,
        Tool::ReplaceTextInFile,
        Tool::RunCommand,
        Tool::ObsidianCreate,
        Tool::ObsidianAppend,
        Tool::ObsidianRead,
        Tool::ObsidianSearch,
    ];
    assert(order@ =~= listed_tools());
    let mut r: Vec<ToolDescriptor> = Vec::new();
    let mut i: usize = 0;
    while i < 12
        invariant
            i <= 12,
            order@ == listed_tools(),
            descriptors_view(r@) == listed_tools().take(i as int).map_values(
                |t: Tool| descriptor_view(t),
            ),
        decreases 12 - i,
    {
        let ghost before = r@;
        r.push(describe(order[i]));
        assert(descriptors_view(r@) =~= descriptors_view(before).push(
            descriptor_view(listed_tools()[i as int]),
        ));
        assert(listed_tools().take(i + 1) =~= listed_tools().take(i as int).push(
            listed_tools()[i as int],
        ));
        assert(listed_tools().take(i + 1).map_values(|t: Tool| descriptor_view(t))
            =~= listed_tools().take(i as int).map_values(|t: Tool| descriptor_view(t)).push(
            descriptor_view(listed_tools()[i as int]),
        ));
        i = i + 1;
    }
    assert(listed_tools().take(12) =~= listed_tools());
    r
}

/// Every tool that `tools/list` gives is one that `tools/call` runs under
/// that name, and every tool that the server can run is in the list.
pub proof fn lemma_listed_tools_are_callable()
    ensures
        forall|i: int|
            0 <= i < listed_tools().len() ==> tool_named(
                #[trigger] descriptor_view(listed_tools()[i]).name,
            ) == Some(listed_tools()[i]),
        forall|t: Tool| #[trigger] listed_tools().contains(t),
{
    assert forall|i: int| 0 <= i < listed_tools().len() implies tool_named(
        #[trigger] descriptor_view(listed_tools()[i]).name,
    ) == Some(listed_tools()[i]) by {
        lemma_tool_name_round_trip(listed_tools()[i]);
    }
    assert forall|t: Tool| #[trigger] listed_tools().contains(t) by {
        let i: int = match t {
            Tool::GitStatus => 0,
            Tool::GitAdd => 1,
            Tool::GitCommit => 2,
            Tool::WriteFile => 3,
            Tool::ReadFile => 4,
            Tool::RenameFile => 5,
            Tool::ReplaceTextInFile => 6,
            Tool::RunCommand => 7,
            Tool::ObsidianCreate => 8,
            Tool::ObsidianAppend => 9,
            Tool::ObsidianRead => 10,
            Tool::ObsidianSearch => 11,
        };
        assert(listed_tools()[i] == t);
    }
}

} // verus!
