//! The graph source panel of the visualizer: a graph is either loaded from a
//! JSON file of a chosen directory or generated from a vertex count, an edge
//! count and whether it must be connected.
use vstd::prelude::*;
use vstd::string::StringExecFns;

verus! {

/// The value after a row of "-" and "+" buttons: "-" is shown only while
/// `value` is at least `step_size` and subtracts it when clicked; "+" is
/// shown (with the value that "-" left) only while adding `step_size` stays
/// within `usize`, and adds it when clicked. A click on a button that is not
/// shown has no effect.
pub open spec fn up_down_spec(value: usize, step_size: usize, minus_clicked: bool, plus_clicked: bool) -> usize {
    let after_minus = if value >= step_size && minus_clicked { (value - step_size) as usize } else { value };
    if after_minus <= usize::MAX - step_size && plus_clicked {
        (after_minus + step_size) as usize
    } else {
        after_minus
    }
}

/// Applies the clicks on the "-" and "+" buttons next to `value`, as
/// `up_down_spec` says; `value` never leaves the range of `usize`.
pub fn up_down_arrow_buttons_usize(value: &mut usize, step_size: usize, minus_clicked: bool, plus_clicked: bool)
    ensures
        *final(value) == up_down_spec(*old(value), step_size, minus_clicked, plus_clicked),
{
    if *value >= step_size && minus_clicked {
        *value -= step_size;
    }
    if *value <= usize::MAX - step_size && plus_clicked {
        *value += step_size;
    }
}


/// What the directory listing tells about one of its entries.
pub struct DirEntryInfo {
    /// The entry's file name, when it is valid UTF-8.
    pub file_name: Option<String>,
    /// Whether the entry is a regular file.
    pub is_file: bool,
    /// The file name's extension, when it has one.
    pub extension: Option<String>,
}

/// The entry is a regular JSON file with a readable name: `.json` is its
/// extension.
pub open spec fn is_graph_file(e: DirEntryInfo) -> bool {
    &&& e.is_file
    &&& e.extension matches Some(ext) && ext@ == "json"@
    &&& e.file_name is Some
}

/// The names of the graph files among `entries`, in listing order.
pub open spec fn graph_file_names(entries: Seq<DirEntryInfo>) -> Seq<Seq<char>>
    decreases entries.len(),
{
    if entries.len() == 0 {
        Seq::empty()
    } else {
        let rest = graph_file_names(entries.drop_last());
        let e = entries.last();
        if is_graph_file(e) {
            rest.push(e.file_name->0@)
        } else {
            rest
        }
    }
}

/// The contents of a list of strings.
pub open spec fn string_views(v: Seq<String>) -> Seq<Seq<char>> {
    v.map_values(|s: String| s@)
}

/// Loading graphs from the files of a directory.
pub struct GraphFromFile {
    pub source_dir_path: String,
    pub files: Vec<String>,
    pub selected_file: Option<String>,
}

impl Default for GraphFromFile {
    /// Graphs are looked for in `./graphs`; no file is listed or chosen yet.
    fn default() -> (g: Self)
        ensures
            g.source_dir_path@ == "./graphs"@,
            g.files@.len() == 0,
            g.selected_file is None,
    {
        GraphFromFile {
            source_dir_path: <String as StringExecFns>::from_str("./graphs"),
            files: Vec::new(),
            selected_file: None,
        }
    }
}

impl GraphFromFile {
    /// Refreshes the list of graph files from a listing of the source
    /// directory, `None` when the directory could not be read. Without a
    /// listing the list is emptied and the choice kept. With one, the list
    /// becomes the names of its graph files in listing order, and the chosen
    /// file stays chosen only if it is among them.
    pub fn update_file_list(&mut self, listing: Option<Vec<DirEntryInfo>>)
        ensures
            final(self).source_dir_path == old(self).source_dir_path,
            listing is None ==> final(self).files@.len() == 0,
            listing is None ==> final(self).selected_file == old(self).selected_file,
            listing matches Some(entries) ==> string_views(final(self).files@) == graph_file_names(entries@),
            listing matches Some(entries) ==> final(self).selected_file == (
                match old(self).selected_file {
                    Some(f) => if graph_file_names(entries@).contains(f@) { Some(f) } else { None },
                    None => None,
                }
            ),
            listing is Some ==> (final(self).selected_file matches Some(f) ==> string_views(final(self).files@).contains(f@)),
    {
        match listing {
            None => {
                self.files.clear();
            },
            Some(entries) => {
                let json = <String as StringExecFns>::from_str("json");
                let mut file_names: Vec<String> = Vec::new();
                let mut saw_selected_file = false;
                let mut i: usize = 0;
                while i < entries.len()
                    invariant
                        i <= entries@.len(),
                        json@ == "json"@,
                        string_views(file_names@) == graph_file_names(entries@.subrange(0, i as int)),
                        saw_selected_file == (match self.selected_file {
                            Some(f) => graph_file_names(entries@.subrange(0, i as int)).contains(f@),
                            None => false,
                        }),
                    decreases entries@.len() - i,
                {
                    let entry = &entries[i];
                    let ghost prefix = entries@.subrange(0, i as int);
                    let ghost next = entries@.subrange(0, i + 1);
                    assert(next.drop_last() == prefix);
                    assert(next.last() == entries@[i as int]);
                    let mut listed = false;
                    if entry.is_file {
                        match &entry.extension {
                            Some(ext) => {
                                if *ext == json {
                                    match &entry.file_name {
                                        Some(name) => {
                                            listed = true;
                                            match &self.selected_file {
                                                Some(f) => {
                                                    if *f == *name {
                                                        saw_selected_file = true;
                                                    }
                                                },
                                                None => {},
                                            }
                                            let ghost before = file_names@;
                                            file_names.push(name.clone());
                                            assert(string_views(file_names@) == string_views(before).push(name@));
                                        },
                                        None => {},
                                    }
                                }
                            },
                            None => {},
                        }
                    }
                    assert(listed == is_graph_file(entries@[i as int]));
                    proof {
                        if let Some(f) = &self.selected_file {
                            if listed {
                                assert(graph_file_names(next) == graph_file_names(prefix).push(
                                    entries@[i as int].file_name->0@,
                                ));
                                assert(graph_file_names(next).contains(f@) == (graph_file_names(prefix).contains(f@)
                                    || f@ == entries@[i as int].file_name->0@)) by {
                                    let p = graph_file_names(prefix);
                                    let q = graph_file_names(next);
                                    if q.contains(f@) {
                                        let k = choose|k: int| 0 <= k < q.len() && q[k] == f@;
                                        if k < p.len() {
                                            assert(p[k] == q[k]);
                                        }
                                    }
                                    if p.contains(f@) {
                                        let k = choose|k: int| 0 <= k < p.len() && p[k] == f@;
                                        assert(q[k] == p[k]);
                                    }
                                    if f@ == entries@[i as int].file_name->0@ {
                                        assert(q[p.len() as int] == f@);
                                    }
                                }
                            }
                        }
                    }
                    i += 1;
                }
                assert(entries@.subrange(0, entries@.len() as int) == entries@);
                if !saw_selected_file {
                    self.selected_file = None;
                }
                self.files = file_names;
            },
        }
    }
}

/// Generating a random graph.
#[derive(Clone, Copy)]
pub struct GraphFromConfig {
    pub vertices: usize,
    pub edges: usize,
    pub connected: bool,
}

impl Default for GraphFromConfig {
    /// A connected graph with two vertices and one edge.
    fn default() -> (g: Self)
        ensures
            g.vertices == 2,
            g.edges == 1,
            g.connected,
    {
        GraphFromConfig { vertices: 2, edges: 1, connected: true }
    }
}

/// Which of the two graph sources the panel shows.
#[derive(Clone, Copy, PartialEq, Eq, Structural)]
pub enum GraphSourceSelection {
    FromFile,
    FromConfig,
}

impl Default for GraphSourceSelection {
    /// The panel opens on loading from a file.
    fn default() -> (s: Self)
        ensures
            s == GraphSourceSelection::FromFile,
    {
        GraphSourceSelection::FromFile
    }
}

/// Everything the graph source panel remembers.
pub struct GraphSourceUIContext {
    pub graph_from_file: GraphFromFile,
    pub graph_from_config: GraphFromConfig,
    pub selection: GraphSourceSelection,
}

impl Default for GraphSourceUIContext {
    /// Both sources with their defaults, showing the file source.
    fn default() -> (c: Self)
        ensures
            c.graph_from_file.source_dir_path@ == "./graphs"@,
            c.graph_from_file.files@.len() == 0,
            c.graph_from_file.selected_file is None,
            c.graph_from_config == (GraphFromConfig { vertices: 2, edges: 1, connected: true }),
            c.selection == GraphSourceSelection::FromFile,
    {
        GraphSourceUIContext {
            graph_from_file: GraphFromFile::default(),
            graph_from_config: GraphFromConfig::default(),
            selection: GraphSourceSelection::default(),
        }
    }
}

/// What the user does in the graph source panel.
pub enum GraphSourceEvent {
    /// The "From Config" radio button was clicked.
    SelectFromConfig,
    /// The "From File" radio button was clicked.
    SelectFromFile,
    /// The directory path was edited to this text.
    EditSourceDir(String),
    /// The radio button of the listed file at this position was clicked.
    ChooseFile(usize),
    /// The "Apply" button of the file source was clicked.
    ApplyFile,
    /// The "-" and "+" buttons next to the vertex count were clicked or not.
    VertexButtons { minus: bool, plus: bool },
    /// The "-" and "+" buttons next to the edge count were clicked or not.
    EdgeButtons { minus: bool, plus: bool },
    /// The "Connected" checkbox was set to this value.
    SetConnected(bool),
    /// The "Apply" button of the generator was clicked.
    ApplyConfig,
}

/// What the panel asks the application to do.
pub enum GraphSourceRequest {
    /// Load the graph stored as JSON at this path.
    LoadGraphFromFile { path: String },
    /// Generate a random graph.
    GenerateGraph { vertices: usize, edges: usize, connected: bool },
}

/// The path of file `file` of directory `dir`.
pub open spec fn file_path(dir: Seq<char>, file: Seq<char>) -> Seq<char> {
    dir + "/"@ + file
}

impl GraphSourceUIContext {
    /// Handles one event of the panel. The radio buttons switch the source
    /// shown. The controls of a source act only while it is shown: a listed
    /// file can be chosen and, once one is chosen, applied, which asks to
    /// load `<directory>/<file>`; the counts follow their buttons as
    /// `up_down_spec` says with a step of 1, the checkbox sets
    /// connectedness, and applying asks to generate a graph with the current
    /// settings. Only the two apply buttons ask for anything.
    pub fn graph_source_ui(&mut self, event: GraphSourceEvent) -> (request: Option<GraphSourceRequest>)
        ensures
            ({
                let from_file = old(self).selection == GraphSourceSelection::FromFile;
                let from_config = old(self).selection == GraphSourceSelection::FromConfig;
                let file = old(self).graph_from_file;
                let config = old(self).graph_from_config;
                match event {
                    GraphSourceEvent::SelectFromConfig => {
                        &&& request is None
                        &&& final(self).selection == GraphSourceSelection::FromConfig
                        &&& final(self).graph_from_file == file
                        &&& final(self).graph_from_config == config
                    },
                    GraphSourceEvent::SelectFromFile => {
                        &&& request is None
                        &&& final(self).selection == GraphSourceSelection::FromFile
                        &&& final(self).graph_from_file == file
                        &&& final(self).graph_from_config == config
                    },
                    GraphSourceEvent::EditSourceDir(text) => {
                        &&& request is None
                        &&& final(self).selection == old(self).selection
                        &&& final(self).graph_from_config == config
                        &&& final(self).graph_from_file.files == file.files
                        &&& final(self).graph_from_file.selected_file == file.selected_file
                        &&& final(self).graph_from_file.source_dir_path == if from_file { text } else { file.source_dir_path }
                    },
                    GraphSourceEvent::ChooseFile(idx) => {
                        &&& request is None
                        &&& final(self).selection == old(self).selection
                        &&& final(self).graph_from_config == config
                        &&& final(self).graph_from_file.files == file.files
                        &&& final(self).graph_from_file.source_dir_path == file.source_dir_path
                        &&& if from_file && idx < file.files@.len() {
                            final(self).graph_from_file.selected_file matches Some(f) && f@ == file.files@[idx as int]@
                        } else {
                            final(self).graph_from_file.selected_file == file.selected_file
                        }
                    },
                    GraphSourceEvent::ApplyFile => {
                        &&& final(self).selection == old(self).selection
                        &&& final(self).graph_from_file == file
                        &&& final(self).graph_from_config == config
                        &&& match request {
                            Some(GraphSourceRequest::LoadGraphFromFile { path }) => from_file
                                && (file.selected_file matches Some(f)
                                && path@ == file_path(file.source_dir_path@, f@)),
                            Some(GraphSourceRequest::GenerateGraph { .. }) => false,
                            None => !(from_file && file.selected_file is Some),
                        }
                    },
                    GraphSourceEvent::VertexButtons { minus, plus } => {
                        &&& request is None
                        &&& final(self).selection == old(self).selection
                        &&& final(self).graph_from_file == file
                        &&& final(self).graph_from_config == if from_config {
                            GraphFromConfig { vertices: up_down_spec(config.vertices, 1, minus, plus), ..config }
                        } else {
                            config
                        }
                    },
                    GraphSourceEvent::EdgeButtons { minus, plus } => {
                        &&& request is None
                        &&& final(self).selection == old(self).selection
                        &&& final(self).graph_from_file == file
                        &&& final(self).graph_from_config == if from_config {
                            GraphFromConfig { edges: up_down_spec(config.edges, 1, minus, plus), ..config }
                        } else {
                            config
                        }
                    },
                    GraphSourceEvent::SetConnected(c) => {
                        &&& request is None
                        &&& final(self).selection == old(self).selection
                        &&& final(self).graph_from_file == file
                        &&& final(self).graph_from_config == if from_config {
                            GraphFromConfig { connected: c, ..config }
                        } else {
                            config
                        }
                    },
                    GraphSourceEvent::ApplyConfig => {
                        &&& final(self).selection == old(self).selection
                        &&& final(self).graph_from_file == file
                        &&& final(self).graph_from_config == config
                        &&& match request {
                            Some(GraphSourceRequest::GenerateGraph { vertices, edges, connected }) => from_config
                                && vertices == config.vertices && edges == config.edges && connected == config.connected,
                            Some(GraphSourceRequest::LoadGraphFromFile { .. }) => false,
                            None => !from_config,
                        }
                    },
                }
            }),
    {
        let from_file = self.selection == GraphSourceSelection::FromFile;
        let from_config = self.selection == GraphSourceSelection::FromConfig;
        match event {
            GraphSourceEvent::SelectFromConfig => {
                self.selection = GraphSourceSelection::FromConfig;
                None
            },
            GraphSourceEvent::SelectFromFile => {
                self.selection = GraphSourceSelection::FromFile;
                None
            },
            GraphSourceEvent::EditSourceDir(text) => {
                if from_file {
                    self.graph_from_file.source_dir_path = text;
                }
                None
            },
            GraphSourceEvent::ChooseFile(idx) => {
                if from_file && idx < self.graph_from_file.files.len() {
                    let chosen = self.graph_from_file.files[idx].clone();
                    self.graph_from_file.selected_file = Some(chosen);
                }
                None
            },
            GraphSourceEvent::ApplyFile => {
                if from_file {
                    match &self.graph_from_file.selected_file {
                        Some(selected_file) => {
                            let mut path = self.graph_from_file.source_dir_path.clone();
                            path.append("/");
                            path.append(selected_file.as_str());
                            Some(GraphSourceRequest::LoadGraphFromFile { path })
                        },
                        None => None,
                    }
                } else {
                    None
                }
            },
            GraphSourceEvent::VertexButtons { minus, plus } => {
                if from_config {
                    up_down_arrow_buttons_usize(&mut self.graph_from_config.vertices, 1, minus, plus);
                }
                None
            },
            GraphSourceEvent::EdgeButtons { minus, plus } => {
                if from_config {
                    up_down_arrow_buttons_usize(&mut self.graph_from_config.edges, 1, minus, plus);
                }
                None
            },
            GraphSourceEvent::SetConnected(c) => {
                if from_config {
                    self.graph_from_config.connected = c;
                }
                None
            },
            GraphSourceEvent::ApplyConfig => {
                if from_config {
                    Some(
                        GraphSourceRequest::GenerateGraph {
                            vertices: self.graph_from_config.vertices,
                            edges: self.graph_from_config.edges,
                            connected: self.graph_from_config.connected,
                        },
                    )
                } else {
                    None
                }
            },
        }
    }
}

/// The "-" and "+" buttons do what they say: "+" alone raises the value by
/// the step whenever that stays within `usize`, "-" alone lowers it by the
/// step whenever the value is at least the step, both together leave a value
/// of at least the step as it was, and no click changes nothing. A button
/// that would leave the range of `usize` is not shown, so its click changes
/// nothing either.
pub proof fn lemma_up_down_buttons(v: usize, s: usize)
    ensures
        v + s <= usize::MAX ==> up_down_spec(v, s, false, true) == v + s,
        v + s > usize::MAX ==> up_down_spec(v, s, false, true) == v,
        v >= s ==> up_down_spec(v, s, true, false) == v - s,
        v < s ==> up_down_spec(v, s, true, false) == v,
        v >= s ==> up_down_spec(v, s, true, true) == v,
        up_down_spec(v, s, false, false) == v,
{
}

/// The file list holds exactly the regular files with extension `json`:
/// a name is listed if and only if some entry of the listing is such a file
/// with that name, and there are as many names as such entries.
pub proof fn lemma_file_list_is_the_json_files(entries: Seq<DirEntryInfo>)
    ensures
        graph_file_names(entries).len() == entries.filter(
            |e: DirEntryInfo| e.is_file && (e.extension matches Some(x) && x@ == "json"@) && e.file_name is Some,
        ).len(),
        forall|name: Seq<char>| #[trigger] graph_file_names(entries).contains(name) <==> exists|i: int|
            0 <= i < entries.len() && (#[trigger] entries[i]).is_file
                && (entries[i].extension matches Some(x) && x@ == "json"@)
                && (entries[i].file_name matches Some(f) && f@ == name),
    decreases entries.len(),
{
    reveal(Seq::filter);
    if entries.len() > 0 {
        let init = entries.drop_last();
        let e = entries.last();
        lemma_file_list_is_the_json_files(init);
        let rest = graph_file_names(init);
        let all = graph_file_names(entries);
        assert forall|name: Seq<char>| #[trigger] all.contains(name) <==> exists|i: int|
            0 <= i < entries.len() && (#[trigger] entries[i]).is_file
                && (entries[i].extension matches Some(x) && x@ == "json"@)
                && (entries[i].file_name matches Some(f) && f@ == name) by {
            if all.contains(name) {
                let k = choose|k: int| 0 <= k < all.len() && all[k] == name;
                if k < rest.len() {
                    assert(all[k] == rest[k]);
                    assert(rest.contains(name));
                    let i = choose|i: int|
                        0 <= i < init.len() && (#[trigger] init[i]).is_file
                            && (init[i].extension matches Some(x) && x@ == "json"@)
                            && (init[i].file_name matches Some(f) && f@ == name);
                    assert(entries[i] == init[i]);
                } else {
                    assert(entries[entries.len() - 1] == e);
                }
            }
            if exists|i: int|
                0 <= i < entries.len() && (#[trigger] entries[i]).is_file
                    && (entries[i].extension matches Some(x) && x@ == "json"@)
                    && (entries[i].file_name matches Some(f) && f@ == name) {
                let i = choose|i: int|
                    0 <= i < entries.len() && (#[trigger] entries[i]).is_file
                        && (entries[i].extension matches Some(x) && x@ == "json"@)
                        && (entries[i].file_name matches Some(f) && f@ == name);
                if i == entries.len() - 1 {
                    assert(all[all.len() - 1] == name);
                } else {
                    assert(init[i] == entries[i]);
                    assert(rest.contains(name));
                    let k = choose|k: int| 0 <= k < rest.len() && rest[k] == name;
                    assert(all[k] == rest[k]);
                }
            }
        }
    }
}

} // verus!
