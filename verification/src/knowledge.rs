//! The curated database of well-known Windows processes and its repository.
//!
//! The database is JSON text shipped inside the library; the front end parses
//! it (JSON decoding into the entry type is serde's job, done where serde's
//! derives can live) and hands the entries to
//! [`EmbeddedKnowledgeRepository::new`]. Lookups are by process name, ignoring
//! ASCII case, since Windows process names are not case-sensitive.

use vstd::prelude::*;

use crate::error::HightowerError;
use crate::ports::{KnownProcess, KnownProcessView, ProcessKnowledgeRepository, opt_known};
use crate::text::{eq_ignore_ascii_case, equal_ignoring_ascii_case, lemma_equal_ignoring_ascii_case_equivalence};

verus! {

/// The curated database, as JSON: an array of objects with the keys
/// `processName`, `expectedDirectories`, `publisher`, `category` (kebab-case:
/// `core-windows`, `driver`, `third-party-known`, `unknown`), `descriptionEN`
/// and `descriptionPT`. Every entry is a trust assertion, so each one names
/// its expected directories and publisher and carries both descriptions.
pub const EMBEDDED_DATABASE: &'static str = r#"[
  {
    "processName": "svchost.exe",
    "expectedDirectories": [
      "%SystemRoot%\\System32",
      "%SystemRoot%\\SysWOW64"
    ],
    "publisher": "Microsoft Windows",
    "category": "core-windows",
    "descriptionEN": "Service Host: a shared container that runs Windows services. Many copies at once is normal.",
    "descriptionPT": "Host de Serviço: um contêiner compartilhado que executa serviços do Windows. Várias cópias ao mesmo tempo é normal."
  },
  {
    "processName": "csrss.exe",
    "expectedDirectories": [
      "%SystemRoot%\\System32"
    ],
    "publisher": "Microsoft Windows",
    "category": "core-windows",
    "descriptionEN": "Client/Server Runtime: a core part of Windows that manages console windows and shutdown. One per user session.",
    "descriptionPT": "Runtime Cliente/Servidor: parte essencial do Windows que gerencia janelas de console e o desligamento. Uma por sessão de usuário."
  },
  {
    "processName": "wininit.exe",
    "expectedDirectories": [
      "%SystemRoot%\\System32"
    ],
    "publisher": "Microsoft Windows",
    "category": "core-windows",
    "descriptionEN": "Windows Start-Up Application: starts the core background services when Windows boots.",
    "descriptionPT": "Aplicativo de Inicialização do Windows: inicia os serviços essenciais em segundo plano quando o Windows liga."
  },
  {
    "processName": "winlogon.exe",
    "expectedDirectories": [
      "%SystemRoot%\\System32"
    ],
    "publisher": "Microsoft Windows",
    "category": "core-windows",
    "descriptionEN": "Windows Logon: handles signing in and out and the secure Ctrl+Alt+Del screen.",
    "descriptionPT": "Logon do Windows: cuida da entrada e saída da conta e da tela segura do Ctrl+Alt+Del."
  },
  {
    "processName": "services.exe",
    "expectedDirectories": [
      "%SystemRoot%\\System32"
    ],
    "publisher": "Microsoft Windows",
    "category": "core-windows",
    "descriptionEN": "Services and Controller: starts, stops and watches over Windows services. There should be exactly one.",
    "descriptionPT": "Serviços e Controlador: inicia, para e supervisiona os serviços do Windows. Deve existir exatamente um."
  },
  {
    "processName": "lsass.exe",
    "expectedDirectories": [
      "%SystemRoot%\\System32"
    ],
    "publisher": "Microsoft Windows",
    "category": "core-windows",
    "descriptionEN": "Local Security Authority: checks passwords and enforces security policy. There should be exactly one.",
    "descriptionPT": "Autoridade de Segurança Local: verifica senhas e aplica a política de segurança. Deve existir exatamente um."
  },
  {
    "processName": "smss.exe",
    "expectedDirectories": [
      "%SystemRoot%\\System32"
    ],
    "publisher": "Microsoft Windows",
    "category": "core-windows",
    "descriptionEN": "Session Manager: the first user-mode process Windows starts; it sets up each session.",
    "descriptionPT": "Gerenciador de Sessão: o primeiro processo de modo usuário que o Windows inicia; ele prepara cada sessão."
  },
  {
    "processName": "explorer.exe",
    "expectedDirectories": [
      "%SystemRoot%"
    ],
    "publisher": "Microsoft Windows",
    "category": "core-windows",
    "descriptionEN": "Windows Explorer: the desktop, taskbar, Start menu and file browser you see.",
    "descriptionPT": "Windows Explorer: a área de trabalho, a barra de tarefas, o menu Iniciar e o navegador de arquivos que você vê."
  },
  {
    "processName": "dwm.exe",
    "expectedDirectories": [
      "%SystemRoot%\\System32"
    ],
    "publisher": "Microsoft Windows",
    "category": "core-windows",
    "descriptionEN": "Desktop Window Manager: draws windows, transparency and animations on screen.",
    "descriptionPT": "Gerenciador de Janelas da Área de Trabalho: desenha janelas, transparências e animações na tela."
  },
  {
    "processName": "conhost.exe",
    "expectedDirectories": [
      "%SystemRoot%\\System32",
      "%SystemRoot%\\SysWOW64"
    ],
    "publisher": "Microsoft Windows",
    "category": "core-windows",
    "descriptionEN": "Console Window Host: the window behind command-line programs. Several copies are normal.",
    "descriptionPT": "Host da Janela do Console: a janela por trás dos programas de linha de comando. Várias cópias são normais."
  },
  {
    "processName": "WmiPrvSE.exe",
    "expectedDirectories": [
      "%SystemRoot%\\System32\\wbem",
      "%SystemRoot%\\SysWOW64\\wbem"
    ],
    "publisher": "Microsoft Windows",
    "category": "core-windows",
    "descriptionEN": "WMI Provider Host: answers system-information queries from programs and administrators.",
    "descriptionPT": "Host do Provedor WMI: responde a consultas de informações do sistema feitas por programas e administradores."
  },
  {
    "processName": "taskmgr.exe",
    "expectedDirectories": [
      "%SystemRoot%\\System32",
      "%SystemRoot%\\SysWOW64"
    ],
    "publisher": "Microsoft Windows",
    "category": "core-windows",
    "descriptionEN": "Task Manager: the window that lists running programs and resource use.",
    "descriptionPT": "Gerenciador de Tarefas: a janela que lista os programas em execução e o uso de recursos."
  },
  {
    "processName": "taskhostw.exe",
    "expectedDirectories": [
      "%SystemRoot%\\System32"
    ],
    "publisher": "Microsoft Windows",
    "category": "core-windows",
    "descriptionEN": "Host Process for Windows Tasks: runs scheduled and background tasks for your session.",
    "descriptionPT": "Processo Host para Tarefas do Windows: executa tarefas agendadas e em segundo plano da sua sessão."
  },
  {
    "processName": "sihost.exe",
    "expectedDirectories": [
      "%SystemRoot%\\System32"
    ],
    "publisher": "Microsoft Windows",
    "category": "core-windows",
    "descriptionEN": "Shell Infrastructure Host: supports parts of the desktop such as notifications and the Start menu.",
    "descriptionPT": "Host de Infraestrutura do Shell: dá suporte a partes da área de trabalho, como notificações e o menu Iniciar."
  },
  {
    "processName": "fontdrvhost.exe",
    "expectedDirectories": [
      "%SystemRoot%\\System32"
    ],
    "publisher": "Microsoft Windows",
    "category": "core-windows",
    "descriptionEN": "Usermode Font Driver Host: loads fonts in an isolated process for safety.",
    "descriptionPT": "Host do Driver de Fonte em Modo Usuário: carrega fontes em um processo isolado por segurança."
  },
  {
    "processName": "spoolsv.exe",
    "expectedDirectories": [
      "%SystemRoot%\\System32"
    ],
    "publisher": "Microsoft Windows",
    "category": "core-windows",
    "descriptionEN": "Print Spooler: queues documents and sends them to printers.",
    "descriptionPT": "Spooler de Impressão: enfileira documentos e os envia para as impressoras."
  },
  {
    "processName": "RuntimeBroker.exe",
    "expectedDirectories": [
      "%SystemRoot%\\System32"
    ],
    "publisher": "Microsoft Windows",
    "category": "core-windows",
    "descriptionEN": "Runtime Broker: checks what permissions Store apps have, such as camera or location.",
    "descriptionPT": "Runtime Broker: verifica quais permissões os aplicativos da Loja têm, como câmera ou localização."
  },
  {
    "processName": "SearchIndexer.exe",
    "expectedDirectories": [
      "%SystemRoot%\\System32"
    ],
    "publisher": "Microsoft Windows",
    "category": "core-windows",
    "descriptionEN": "Windows Search Indexer: builds the index that makes file search fast.",
    "descriptionPT": "Indexador do Windows Search: monta o índice que deixa a busca de arquivos rápida."
  },
  {
    "processName": "ctfmon.exe",
    "expectedDirectories": [
      "%SystemRoot%\\System32",
      "%SystemRoot%\\SysWOW64"
    ],
    "publisher": "Microsoft Windows",
    "category": "core-windows",
    "descriptionEN": "CTF Loader: supports keyboard layouts, handwriting and other text input methods.",
    "descriptionPT": "Carregador CTF: dá suporte a layouts de teclado, escrita à mão e outros métodos de entrada de texto."
  },
  {
    "processName": "dllhost.exe",
    "expectedDirectories": [
      "%SystemRoot%\\System32",
      "%SystemRoot%\\SysWOW64"
    ],
    "publisher": "Microsoft Windows",
    "category": "core-windows",
    "descriptionEN": "COM Surrogate: runs helper components (for example thumbnail makers) outside the programs that use them.",
    "descriptionPT": "COM Surrogate: executa componentes auxiliares (por exemplo, geradores de miniaturas) fora dos programas que os usam."
  },
  {
    "processName": "audiodg.exe",
    "expectedDirectories": [
      "%SystemRoot%\\System32"
    ],
    "publisher": "Microsoft Windows",
    "category": "core-windows",
    "descriptionEN": "Windows Audio Device Graph Isolation: processes sound effects apart from the rest of the system.",
    "descriptionPT": "Isolamento de Gráfico de Dispositivo de Áudio do Windows: processa efeitos de som separado do resto do sistema."
  },
  {
    "processName": "SecurityHealthService.exe",
    "expectedDirectories": [
      "%SystemRoot%\\System32"
    ],
    "publisher": "Microsoft Windows",
    "category": "core-windows",
    "descriptionEN": "Windows Security Health Service: reports the state of antivirus, firewall and updates.",
    "descriptionPT": "Serviço de Integridade da Segurança do Windows: informa o estado do antivírus, do firewall e das atualizações."
  },
  {
    "processName": "MsMpEng.exe",
    "expectedDirectories": [
      "%ProgramFiles%\\Windows Defender",
      "%ProgramData%\\Microsoft\\Windows Defender\\Platform"
    ],
    "publisher": "Microsoft Windows",
    "category": "core-windows",
    "descriptionEN": "Microsoft Defender Antivirus engine: scans files for malware in the background.",
    "descriptionPT": "Mecanismo do Microsoft Defender Antivírus: verifica arquivos em busca de malware em segundo plano."
  },
  {
    "processName": "chrome.exe",
    "expectedDirectories": [
      "%ProgramFiles%\\Google\\Chrome\\Application",
      "%ProgramFiles(x86)%\\Google\\Chrome\\Application",
      "%LOCALAPPDATA%\\Google\\Chrome\\Application"
    ],
    "publisher": "Google LLC",
    "category": "third-party-known",
    "descriptionEN": "Google Chrome web browser. It runs one process per tab and extension, so many copies are normal.",
    "descriptionPT": "Navegador Google Chrome. Ele usa um processo por aba e extensão, então muitas cópias são normais."
  },
  {
    "processName": "msedge.exe",
    "expectedDirectories": [
      "%ProgramFiles(x86)%\\Microsoft\\Edge\\Application",
      "%ProgramFiles%\\Microsoft\\Edge\\Application"
    ],
    "publisher": "Microsoft Corporation",
    "category": "third-party-known",
    "descriptionEN": "Microsoft Edge web browser. Like Chrome, it runs many processes at once.",
    "descriptionPT": "Navegador Microsoft Edge. Assim como o Chrome, ele executa vários processos ao mesmo tempo."
  },
  {
    "processName": "firefox.exe",
    "expectedDirectories": [
      "%ProgramFiles%\\Mozilla Firefox",
      "%ProgramFiles(x86)%\\Mozilla Firefox"
    ],
    "publisher": "Mozilla Corporation",
    "category": "third-party-known",
    "descriptionEN": "Mozilla Firefox web browser. Several copies at once are normal.",
    "descriptionPT": "Navegador Mozilla Firefox. Várias cópias ao mesmo tempo são normais."
  }
]"#;

/// The views of a sequence of database entries.
pub open spec fn entries_view(entries: Seq<KnownProcess>) -> Seq<KnownProcessView> {
    entries.map_values(|e: KnownProcess| e@)
}

/// The first entry, in database order, whose name equals `name` up to ASCII
/// case.
pub open spec fn first_named(entries: Seq<KnownProcessView>, name: Seq<char>) -> Option<
    KnownProcessView,
>
    decreases entries.len(),
{
    if entries.len() == 0 {
        None
    } else if equal_ignoring_ascii_case(entries[0].process_name, name) {
        Some(entries[0])
    } else {
        first_named(entries.drop_first(), name)
    }
}

/// A lookup finds an entry exactly when some entry's name matches up to ASCII
/// case, and what it finds is such an entry.
pub proof fn lemma_first_named_matches(entries: Seq<KnownProcessView>, name: Seq<char>)
    ensures
        first_named(entries, name) is Some <==> exists|i: int|
            0 <= i < entries.len() && equal_ignoring_ascii_case(
                #[trigger] entries[i].process_name,
                name,
            ),
        first_named(entries, name) matches Some(e) ==> equal_ignoring_ascii_case(
            e.process_name,
            name,
        ) && entries.contains(e),
    decreases entries.len(),
{
    if entries.len() > 0 {
        let rest = entries.drop_first();
        lemma_first_named_matches(rest, name);
        if equal_ignoring_ascii_case(entries[0].process_name, name) {
            assert(entries.contains(entries[0]));
        } else {
            if exists|i: int|
                0 <= i < entries.len() && equal_ignoring_ascii_case(
                    #[trigger] entries[i].process_name,
                    name,
                ) {
                let i = choose|i: int|
                    0 <= i < entries.len() && equal_ignoring_ascii_case(
                        #[trigger] entries[i].process_name,
                        name,
                    );
                assert(i > 0);
                assert(rest[i - 1] == entries[i]);
            }
            if exists|i: int|
                0 <= i < rest.len() && equal_ignoring_ascii_case(
                    #[trigger] rest[i].process_name,
                    name,
                ) {
                let i = choose|i: int|
                    0 <= i < rest.len() && equal_ignoring_ascii_case(
                        #[trigger] rest[i].process_name,
                        name,
                    );
                assert(entries[i + 1] == rest[i]);
            }
            if first_named(rest, name) is Some {
                let e = first_named(rest, name).unwrap();
                let k = choose|k: int| 0 <= k < rest.len() && rest[k] == e;
                assert(entries[k + 1] == e);
            }
        }
    }
}

/// Two names that differ only in ASCII case find the same entry.
pub proof fn lemma_first_named_ignores_ascii_case(
    entries: Seq<KnownProcessView>,
    a: Seq<char>,
    b: Seq<char>,
)
    requires
        equal_ignoring_ascii_case(a, b),
    ensures
        first_named(entries, a) == first_named(entries, b),
    decreases entries.len(),
{
    if entries.len() > 0 {
        let n = entries[0].process_name;
        lemma_equal_ignoring_ascii_case_equivalence(n, a, b);
        lemma_equal_ignoring_ascii_case_equivalence(n, b, a);
        lemma_equal_ignoring_ascii_case_equivalence(a, b, n);
        lemma_first_named_ignores_ascii_case(entries.drop_first(), a, b);
    }
}

/// A [`ProcessKnowledgeRepository`] backed by the curated database.
pub struct EmbeddedKnowledgeRepository {
    entries: Vec<KnownProcess>,
}

impl EmbeddedKnowledgeRepository {
    /// The entries the repository holds, in database order.
    pub closed spec fn entries(&self) -> Seq<KnownProcessView> {
        entries_view(self.entries@)
    }

    /// Builds the repository from the result of parsing the database.
    ///
    /// A parse failure becomes [`HightowerError::KnowledgeDatabase`] carrying
    /// the parser's message; parsed entries are kept as they are, in order.
    pub fn new(parsed: Result<Vec<KnownProcess>, String>) -> (repository: Result<
        Self,
        HightowerError,
    >)
        ensures
            match parsed {
                Ok(entries) => repository matches Ok(r) && r.entries() == entries_view(entries@),
                Err(message) => repository matches Err(HightowerError::KnowledgeDatabase(m))
                    && m == message,
            },
    {
        match parsed {
            Ok(entries) => Ok(EmbeddedKnowledgeRepository { entries }),
            Err(message) => Err(HightowerError::KnowledgeDatabase(message)),
        }
    }

    /// The number of entries in the database.
    pub fn len(&self) -> (count: usize)
        ensures
            count == self.entries().len(),
    {
        self.entries.len()
    }

    /// The entries of the database, in order.
    pub fn entries_list(&self) -> (list: &Vec<KnownProcess>)
        ensures
            entries_view(list@) == self.entries(),
    {
        &self.entries
    }
}

impl ProcessKnowledgeRepository for EmbeddedKnowledgeRepository {
    open spec fn known_entry(&self, process_name: Seq<char>) -> Option<KnownProcessView> {
        first_named(self.entries(), process_name)
    }

    fn lookup(&self, process_name: &str) -> (entry: Option<KnownProcess>) {
        let ghost all = entries_view(self.entries@);
        let mut i: usize = 0;
        assert(all.skip(0) == all);
        while i < self.entries.len()
            invariant
                i <= self.entries@.len(),
                all == entries_view(self.entries@),
                all == self.entries(),
                first_named(all, process_name@) == first_named(all.skip(i as int), process_name@),
            decreases self.entries@.len() - i,
        {
            let entry = &self.entries[i];
            proof {
                let rest = all.skip(i as int);
                assert(rest[0] == entry@);
                assert(rest.drop_first() == all.skip(i as int + 1));
            }
            if eq_ignore_ascii_case(entry.process_name.as_str(), process_name) {
                return Some(entry.clone());
            }
            i = i + 1;
        }
        assert(all.skip(i as int).len() == 0);
        None
    }
}

impl EmbeddedKnowledgeRepository {
    /// Lookups ignore ASCII case: two names that differ only in the case of
    /// their letters find the same entry (or both find none).
    pub proof fn lemma_lookup_ignores_ascii_case(&self, a: Seq<char>, b: Seq<char>)
        requires
            equal_ignoring_ascii_case(a, b),
        ensures
            self.known_entry(a) == self.known_entry(b),
    {
        lemma_first_named_ignores_ascii_case(self.entries(), a, b);
    }

    /// A lookup finds an entry exactly when the database holds an entry whose
    /// name matches up to ASCII case, and the entry it finds is such an entry.
    pub proof fn lemma_lookup_finds_matching_entry(&self, name: Seq<char>)
        ensures
            self.known_entry(name) is Some <==> exists|i: int|
                0 <= i < self.entries().len() && equal_ignoring_ascii_case(
                    #[trigger] self.entries()[i].process_name,
                    name,
                ),
            self.known_entry(name) matches Some(e) ==> equal_ignoring_ascii_case(
                e.process_name,
                name,
            ) && self.entries().contains(e),
    {
        lemma_first_named_matches(self.entries(), name);
    }
}

} // verus!
