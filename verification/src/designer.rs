//! The report designer page: the elements placed on the report and the state
//! of the database connection; and the client that switches between pages.
use crate::login::{AppState, LoginPage};
use vstd::prelude::*;

verus! {

/// The elements that the toolbox offers.
#[derive(PartialEq, Eq, Structural, Clone, Copy, Debug)]
pub enum ToolboxItem {
    Text,
    Image,
    Table,
}

/// How a request to connect the database ended.
#[derive(PartialEq, Eq, Structural, Clone, Copy, Debug)]
pub enum ConnectOutcome {
    /// The server answered with a success status.
    Connected,
    /// The server answered with another status.
    InvalidResponse,
    /// The request did not reach the server or got no answer.
    Failed,
}

/// The report designer: the names of the elements placed so far, in order,
/// and the text that describes the database connection.
pub struct ReportDesigner {
    pub elements: Vec<String>,
    pub db_status: String,
}

/// The name under which a toolbox element is placed.
pub open spec fn item_name(item: ToolboxItem) -> Seq<char> {
    match item {
        ToolboxItem::Text => "Text"@,
        ToolboxItem::Image => "Image"@,
        ToolboxItem::Table => "Table"@,
    }
}

/// The connection status after a connection request ended.
pub open spec fn status_after_connect(outcome: ConnectOutcome) -> Seq<char> {
    match outcome {
        ConnectOutcome::Connected => "Connected"@,
        ConnectOutcome::InvalidResponse => "Connection Failed (Invalid Response)"@,
        ConnectOutcome::Failed => "Connection Failed"@,
    }
}

/// The texts that the connection status can take.
pub open spec fn is_connection_status(s: Seq<char>) -> bool {
    ||| s == "Not Connected"@
    ||| s == "Connecting..."@
    ||| s == "Connected"@
    ||| s == "Connection Failed (Invalid Response)"@
    ||| s == "Connection Failed"@
}

pub open spec fn names(v: Seq<String>) -> Seq<Seq<char>> {
    v.map_values(|s: String| s@)
}

/// The address that a connection request goes to.
pub fn connect_url() -> (url: String)
    ensures
        url@ == "http://localhost:8000/connect"@,
{
    String::from_str("http://localhost:8000/connect")
}

impl ToolboxItem {
    /// The name under which the element is placed.
    pub fn name(&self) -> (n: String)
        ensures
            n@ == item_name(*self),
    {
        match self {
            ToolboxItem::Text => String::from_str("Text"),
            ToolboxItem::Image => String::from_str("Image"),
            ToolboxItem::Table => String::from_str("Table"),
        }
    }
}

impl Default for ReportDesigner {
    /// An empty report whose database is not connected.
    fn default() -> (d: Self)
        ensures
            d.elements@.len() == 0,
            d.db_status@ == "Not Connected"@,
            is_connection_status(d.db_status@),
    {
        ReportDesigner { elements: Vec::new(), db_status: String::from_str("Not Connected") }
    }
}

impl ReportDesigner {
    /// The text that describes the database connection.
    pub fn get_db_status(&self) -> (s: String)
        ensures
            s@ == self.db_status@,
    {
        self.db_status.clone()
    }

    /// Replaces the text that describes the database connection.
    pub fn set_db_status(&mut self, status: String)
        ensures
            final(self).db_status@ == status@,
            final(self).elements == old(self).elements,
    {
        self.db_status = status;
    }

    /// Places an element from the toolbox after those placed so far.
    pub fn add_element(&mut self, item: ToolboxItem)
        ensures
            names(final(self).elements@) == names(old(self).elements@).push(item_name(item)),
            final(self).db_status == old(self).db_status,
    {
        let name = item.name();
        self.elements.push(name);
        assert(names(self.elements@) =~= names(old(self).elements@).push(item_name(item)));
    }

    /// Places the elements whose toolbox buttons were pressed, in the order in
    /// which the toolbox lists them: text, image, table.
    pub fn toolbox_clicks(&mut self, text: bool, image: bool, table: bool)
        ensures
            names(final(self).elements@) == names(old(self).elements@)
                + (if text { seq![item_name(ToolboxItem::Text)] } else { Seq::empty() })
                + (if image { seq![item_name(ToolboxItem::Image)] } else { Seq::empty() })
                + (if table { seq![item_name(ToolboxItem::Table)] } else { Seq::empty() }),
            final(self).db_status == old(self).db_status,
    {
        let ghost start = names(self.elements@);
        if text {
            self.add_element(ToolboxItem::Text);
        }
        let ghost after_text = names(self.elements@);
        if image {
            self.add_element(ToolboxItem::Image);
        }
        let ghost after_image = names(self.elements@);
        if table {
            self.add_element(ToolboxItem::Table);
        }
        assert(after_text =~= start + (if text { seq![item_name(ToolboxItem::Text)] } else {
            Seq::empty()
        }));
        assert(after_image =~= after_text + (if image { seq![item_name(ToolboxItem::Image)] } else {
            Seq::empty()
        }));
        assert(names(self.elements@) =~= after_image + (if table {
            seq![item_name(ToolboxItem::Table)]
        } else {
            Seq::empty()
        }));
    }

    /// A connection request starts: the status says so.
    pub fn begin_connect(&mut self)
        ensures
            final(self).db_status@ == "Connecting..."@,
            is_connection_status(final(self).db_status@),
            final(self).db_status@ != "Not Connected"@,
            final(self).elements == old(self).elements,
    {
        proof {
            lemma_status_texts_differ();
        }
        self.set_db_status(String::from_str("Connecting..."));
    }

    /// A connection request ended: the status says how.
    pub fn finish_connect(&mut self, outcome: ConnectOutcome)
        ensures
            final(self).db_status@ == status_after_connect(outcome),
            is_connection_status(final(self).db_status@),
            final(self).db_status@ != "Not Connected"@,
            final(self).elements == old(self).elements,
    {
        proof {
            lemma_status_texts_differ();
        }
        let status = match outcome {
            ConnectOutcome::Connected => String::from_str("Connected"),
            ConnectOutcome::InvalidResponse => String::from_str("Connection Failed (Invalid Response)"),
            ConnectOutcome::Failed => String::from_str("Connection Failed"),
        };
        self.set_db_status(status);
    }

    /// The line that shows the connection status.
    pub fn status_label(&self) -> (s: String)
        ensures
            s@ == "Database Status: "@ + self.db_status@,
    {
        let mut s = String::from_str("Database Status: ");
        s.append(self.db_status.as_str());
        s
    }
}

proof fn lemma_status_texts_differ()
    ensures
        "Connecting..."@ != "Not Connected"@,
        "Connected"@ != "Not Connected"@,
        "Connection Failed (Invalid Response)"@ != "Not Connected"@,
        "Connection Failed"@ != "Not Connected"@,
{
    reveal_strlit("Not Connected");
    reveal_strlit("Connecting...");
    reveal_strlit("Connected");
    reveal_strlit("Connection Failed (Invalid Response)");
    reveal_strlit("Connection Failed");
    assert("Connecting..."@[0] != "Not Connected"@[0]);
    assert("Connected"@[3] != "Not Connected"@[3]);
    assert("Connection Failed (Invalid Response)"@[0] != "Not Connected"@[0]);
    assert("Connection Failed"@[0] != "Not Connected"@[0]);
}

/// Law: the designer's connection status is one of five texts: a new
/// designer is "Not Connected", starting a request makes it "Connecting...",
/// and a finished request leaves "Connected", "Connection Failed (Invalid
/// Response)" or "Connection Failed"; once a request has started,
/// "Not Connected" never comes back.
pub proof fn law_connection_status_stays_known(outcome: ConnectOutcome)
    ensures
        is_connection_status("Not Connected"@),
        is_connection_status("Connecting..."@),
        is_connection_status(status_after_connect(outcome)),
        "Connecting..."@ != "Not Connected"@,
        status_after_connect(outcome) != "Not Connected"@,
{
    lemma_status_texts_differ();
}

/// The desktop client: the login page, which also holds the page shown, and
/// the report designer.
pub struct App {
    pub login_page: LoginPage,
    pub report_designer: ReportDesigner,
}

impl App {
    /// A client that starts on the login page with an empty report.
    pub fn new() -> (app: App)
        ensures
            app.login_page.app_state == AppState::Login,
            app.login_page.email@ == Seq::<char>::empty(),
            app.login_page.password@ == Seq::<char>::empty(),
            app.login_page.error_message is None,
            app.report_designer.elements@.len() == 0,
            app.report_designer.db_status@ == "Not Connected"@,
    {
        App { login_page: LoginPage::new(AppState::Login), report_designer: ReportDesigner::default() }
    }

    /// The page that the client shows now.
    pub fn current_page(&self) -> (s: AppState)
        ensures
            s == self.login_page.app_state,
    {
        self.login_page.app_state()
    }
}

} // verus!
